use token_gateway::auth::AuthError;
use token_gateway::auth::Credential;
use token_gateway::context::ExecutionContext;
use token_gateway::resolver::SubscriptionRoot;
use token_gateway::session::Action;
use token_gateway::session::Event;
use token_gateway::session::Session;
use token_gateway::stream::ValueStream;

fn context_with(token: &str) -> ExecutionContext {
    let mut ctx = ExecutionContext::new();
    ctx.insert_credential(Credential::new(token.to_string()));
    ctx
}

#[test]
fn authorized_subscription_yields_one_item_then_completes() {
    let mut stream = SubscriptionRoot.values(&context_with("123456")).unwrap();
    assert_eq!(stream.next(), Some(10));
    assert_eq!(stream.next(), None);
    assert_eq!(stream.next(), None);
}

#[test]
fn wrong_token_is_forbidden_with_no_stream() {
    let r = SubscriptionRoot.values(&context_with("000000"));
    assert_eq!(r.err(), Some(AuthError::Forbidden));
}

#[test]
fn one_shot_stream_is_finite() {
    let mut stream = ValueStream::once(10);
    assert_eq!(stream.next(), Some(10));
    assert_eq!(stream.next(), None);
}

#[test]
fn closed_stream_produces_nothing() {
    let mut stream = ValueStream::once(10);
    stream.close();
    assert_eq!(stream.next(), None);
}

#[test]
fn session_happy_path() {
    let mut s = Session::new();
    assert_eq!(s.step(Event::Init("{\"token\": \"123456\"}".to_string())), Action::Ready);
    assert_eq!(s.step(Event::Subscribe), Action::Subscribed);
    assert_eq!(s.step(Event::Next), Action::Item(10));
    assert_eq!(s.step(Event::Next), Action::Completed);
    assert_eq!(s.step(Event::Next), Action::Nothing);
}

#[test]
fn session_invalid_first_message_is_rejected_before_any_data() {
    let mut s = Session::new();
    assert_eq!(
        s.step(Event::Init("no json here".to_string())),
        Action::Refused(AuthError::MissingToken)
    );
    assert_eq!(s.step(Event::Subscribe), Action::Nothing);
    assert_eq!(s.step(Event::Next), Action::Nothing);
}

#[test]
fn session_first_message_must_be_initialization() {
    let mut s = Session::new();
    assert_eq!(s.step(Event::Subscribe), Action::Refused(AuthError::MissingToken));
    assert_eq!(s.step(Event::Next), Action::Nothing);
}

#[test]
fn session_wrong_token_gets_forbidden_and_no_items() {
    let mut s = Session::new();
    assert_eq!(s.step(Event::Init("{\"token\": \"000000\"}".to_string())), Action::Ready);
    assert_eq!(s.step(Event::Subscribe), Action::Refused(AuthError::Forbidden));
    assert_eq!(s.step(Event::Next), Action::Nothing);
    assert_eq!(s.step(Event::Subscribe), Action::Refused(AuthError::Forbidden));
}

#[test]
fn session_close_mid_stream_stops_emission() {
    let mut s = Session::new();
    assert_eq!(s.step(Event::Init("{\"token\": \"123456\"}".to_string())), Action::Ready);
    assert_eq!(s.step(Event::Subscribe), Action::Subscribed);
    assert_eq!(s.step(Event::Close), Action::Nothing);
    assert_eq!(s.step(Event::Next), Action::Nothing);
    assert_eq!(s.step(Event::Subscribe), Action::Nothing);
}

#[test]
fn completed_subscription_restarts_only_through_authorization() {
    let mut s = Session::new();
    assert_eq!(s.step(Event::Init("{\"token\": \"123456\"}".to_string())), Action::Ready);
    assert_eq!(s.step(Event::Subscribe), Action::Subscribed);
    assert_eq!(s.step(Event::Next), Action::Item(10));
    assert_eq!(s.step(Event::Next), Action::Completed);
    // a fresh subscription re-runs the authorization handshake
    assert_eq!(s.step(Event::Subscribe), Action::Subscribed);
    assert_eq!(s.step(Event::Next), Action::Item(10));
}

#[test]
fn concurrent_sessions_are_isolated() {
    let mut allowed = Session::new();
    let mut denied = Session::new();
    assert_eq!(
        allowed.step(Event::Init("{\"token\": \"123456\"}".to_string())),
        Action::Ready
    );
    assert_eq!(
        denied.step(Event::Init("{\"token\": \"000000\"}".to_string())),
        Action::Ready
    );
    assert_eq!(allowed.step(Event::Subscribe), Action::Subscribed);
    assert_eq!(denied.step(Event::Subscribe), Action::Refused(AuthError::Forbidden));
    assert_eq!(denied.step(Event::Next), Action::Nothing);
    assert_eq!(allowed.step(Event::Next), Action::Item(10));
    assert_eq!(denied.step(Event::Close), Action::Nothing);
    assert_eq!(allowed.step(Event::Next), Action::Completed);
}
