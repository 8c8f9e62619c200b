use token_gateway::auth::AuthError;
use token_gateway::auth::Credential;
use token_gateway::context::ExecutionContext;
use token_gateway::extract::extract_http_token;
use token_gateway::extract::init_context;
use token_gateway::extract::post_context;
use token_gateway::resolver::post_current_token;
use token_gateway::resolver::QueryRoot;

#[test]
fn query_token_present() {
    let ctx = post_context(Some("abc".to_string()));
    assert_eq!(QueryRoot.current_token(&ctx), Some("abc"));
}

#[test]
fn query_token_absent() {
    let ctx = post_context(None);
    assert_eq!(QueryRoot.current_token(&ctx), None);
}

#[test]
fn query_empty_token_is_present() {
    let ctx = post_context(Some(String::new()));
    assert_eq!(QueryRoot.current_token(&ctx), Some(""));
}

#[test]
fn http_extractor_wraps_header_value() {
    let c = extract_http_token(Some("abc".to_string())).unwrap();
    assert_eq!(c.value(), "abc");
    assert!(extract_http_token(None).is_none());
}

#[test]
fn context_stores_at_most_one_credential() {
    let mut ctx = ExecutionContext::new();
    assert!(ctx.credential().is_none());
    ctx.insert_credential(Credential::new("first".to_string()));
    ctx.insert_credential(Credential::new("second".to_string()));
    assert_eq!(ctx.credential().unwrap().value(), "second");
}

#[test]
fn ws_init_valid_payload_binds_token() {
    let ctx = init_context("{\"token\": \"abc\"}").unwrap();
    assert_eq!(QueryRoot.current_token(&ctx), Some("abc"));
}

#[test]
fn ws_init_invalid_json_rejected() {
    assert_eq!(init_context("{").err(), Some(AuthError::MissingToken));
    assert_eq!(init_context("not json at all").err(), Some(AuthError::MissingToken));
}

#[test]
fn ws_init_missing_token_field_rejected() {
    assert_eq!(init_context("{\"other\": \"abc\"}").err(), Some(AuthError::MissingToken));
    assert_eq!(init_context("{}").err(), Some(AuthError::MissingToken));
}

#[test]
fn ws_init_non_string_token_rejected() {
    assert_eq!(init_context("{\"token\": 5}").err(), Some(AuthError::MissingToken));
    assert_eq!(init_context("{\"token\": null}").err(), Some(AuthError::MissingToken));
}

#[test]
fn error_kinds_are_distinct() {
    assert_ne!(AuthError::MissingToken, AuthError::Forbidden);
}

#[test]
fn post_binding_round_trips_header() {
    assert_eq!(post_current_token(Some("abc".to_string())), Some("abc".to_string()));
    assert_eq!(post_current_token(None), None);
}
