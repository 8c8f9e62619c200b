//! Token extractors, one per transport.
//!
//! The synchronous path reads an optional header value: best-effort,
//! non-fatal, absence means anonymous execution. The streaming path parses
//! the connection's first structured initialization message: mandatory, and
//! fatal to connection setup when no token can be extracted.

use vstd::prelude::*;

use crate::auth::AuthError;
use crate::auth::Credential;
use crate::context::ExecutionContext;

verus! {

/// The string value of the `"token"` member of `s` parsed as a JSON
/// object, if `s` parses and that member exists and is a string.
pub uninterp spec fn token_field_of(s: Seq<char>) -> Option<Seq<char>>;

/// Relies on `serde_json::from_str::<Value>`, `Value::get` and
/// `Value::as_str`: parsing a string as JSON and looking a member up
/// depend on the characters of the string alone, so the extracted field is
/// a function of `s` and nothing else.
#[verifier::external_body]
fn json_token_field(s: &str) -> (r: Option<String>)
    ensures
        r.deep_view() == token_field_of(s@),
{
    match serde_json::from_str::<serde_json::Value>(s) {
        Ok(value) => match value.get("token") {
            Some(field) => match field.as_str() {
                Some(token) => Some(token.to_owned()),
                None => None,
            },
            None => None,
        },
        Err(_) => None,
    }
}

/// Synchronous-path extractor: wraps the request's `Token` header value,
/// when the transport found one, as a credential. Absence is not an error.
pub fn extract_http_token(header: Option<String>) -> (r: Option<Credential>)
    ensures
        match r {
            Some(c) => header matches Some(h) && c@ == h@,
            None => header is None,
        },
{
    match header {
        Some(h) => Some(Credential::new(h)),
        None => None,
    }
}

/// The whole compute part of the synchronous handler: a fresh store per
/// request, populated exactly when the header carried a token.
pub fn post_context(header: Option<String>) -> (ctx: ExecutionContext)
    ensures
        match header {
            Some(h) => ctx@ == Some(h@),
            None => ctx@ is None,
        },
{
    let mut ctx = ExecutionContext::new();
    match extract_http_token(header) {
        Some(c) => ctx.insert_credential(c),
        None => (),
    }
    ctx
}

/// Streaming-path initializer: the first message of a streaming connection
/// must be a JSON object with a string `token` member. On success the
/// session's store holds exactly that token; otherwise connection setup
/// fails with [`AuthError::MissingToken`] and no store is created.
pub fn init_context(msg: &str) -> (r: Result<ExecutionContext, AuthError>)
    ensures
        match r {
            Ok(ctx) => ctx@ == token_field_of(msg@) && token_field_of(msg@) is Some,
            Err(e) => e == AuthError::MissingToken && token_field_of(msg@) is None,
        },
{
    match json_token_field(msg) {
        Some(token) => {
            let mut ctx = ExecutionContext::new();
            ctx.insert_credential(Credential::new(token));
            Ok(ctx)
        }
        None => Err(AuthError::MissingToken),
    }
}

} // verus!
