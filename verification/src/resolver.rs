//! Resolver logic: the query that proves round-trip propagation, and the
//! subscription authorizer with its stream source.

use vstd::prelude::*;

use crate::auth::expected_token;
use crate::auth::AuthError;
use crate::context::ExecutionContext;
use crate::stream::ValueStream;

verus! {

/// The single item an authorized subscription produces.
pub open spec fn subscription_items() -> Seq<i32> {
    seq![10i32]
}

/// Root of the query operations.
pub struct QueryRoot;

impl QueryRoot {
    /// Returns the token bound to the current execution, or absence. No
    /// authorization logic: an anonymous execution is a valid `None`, not
    /// an error.
    pub fn current_token<'a>(&self, ctx: &'a ExecutionContext) -> (r: Option<&'a str>)
        ensures
            match r {
                Some(s) => ctx@ == Some(s@),
                None => ctx@ is None,
            },
    {
        match ctx.credential() {
            Some(c) => Some(c.value().as_str()),
            None => None,
        }
    }
}

/// Root of the subscription operations.
pub struct SubscriptionRoot;

impl SubscriptionRoot {
    /// Authorizes the session's credential once, at stream-construction
    /// time, and only then builds the stream: an unauthorized subscriber is
    /// rejected before any item is produced.
    ///
    /// The initializer step guarantees a credential is present; calling
    /// this without one is a contract violation, not a graceful failure.
    pub fn values(&self, ctx: &ExecutionContext) -> (r: Result<ValueStream, AuthError>)
        requires
            ctx@ is Some,
        ensures
            match r {
                Ok(stream) => ctx@ == Some(expected_token()) && stream@ =~= subscription_items(),
                Err(e) => e == AuthError::Forbidden && ctx@ != Some(expected_token()),
            },
    {
        if !ctx.credential_required().is_authorized() {
            return Err(AuthError::Forbidden);
        }
        Ok(ValueStream::once(10))
    }
}

/// The synchronous path end to end: builds the per-request store from the
/// optional `Token` header value and resolves the current token from it —
/// the compute core of the HTTP-POST binding, with the transport's reading
/// and writing left to the caller.
pub fn post_current_token(header: Option<String>) -> (r: Option<String>)
    ensures
        r.deep_view() == header.deep_view(),
{
    let ctx = crate::extract::post_context(header);
    match (QueryRoot).current_token(&ctx) {
        Some(s) => Some(s.to_owned()),
        None => None,
    }
}

/// Round-trip propagation on the synchronous path: a request whose header
/// carried a token resolves to exactly that token, and a request without
/// one resolves to absence.
///
/// The two hypotheses are what [`crate::extract::post_context`] ensures of
/// the store it builds for the header, and what
/// [`QueryRoot::current_token`] ensures of what it resolved from that
/// store; together they force the resolved value to equal the header.
pub proof fn lemma_query_round_trip(
    ctx: ExecutionContext,
    header: Option<Seq<char>>,
    resolved: Option<Seq<char>>,
)
    requires
        match header {
            Some(h) => ctx@ == Some(h),
            None => ctx@ is None,
        },
        match resolved {
            Some(s) => ctx@ == Some(s),
            None => ctx@ is None,
        },
    ensures
        resolved == header,
{
}

} // verus!
