//! The credential and the error kinds of the gateway core.

use vstd::prelude::*;

verus! {

/// The token value that the subscription authorizer accepts.
pub open spec fn expected_token() -> Seq<char> {
    "123456"@
}

/// An opaque bearer token taken from a client connection.
///
/// It has no identity beyond its string value: equality is exact string
/// match, and that equality is the only authorization rule in the core.
pub struct Credential {
    value: String,
}

impl View for Credential {
    type V = Seq<char>;

    closed spec fn view(&self) -> Seq<char> {
        self.value@
    }
}

impl Credential {
    /// Wraps a raw token string. Immutable once constructed.
    pub fn new(value: String) -> (c: Credential)
        ensures
            c@ == value@,
    {
        Credential { value }
    }

    /// The underlying token string.
    pub fn value(&self) -> (v: &String)
        ensures
            v@ == self@,
    {
        &self.value
    }

    /// Whether this credential equals the expected token.
    pub fn is_authorized(&self) -> (b: bool)
        ensures
            b == (self@ == expected_token()),
    {
        let expected: String = "123456".to_owned();
        self.value == expected
    }
}

/// Authentication failures of the gateway core.
#[derive(Clone, Copy, PartialEq, Eq, Structural, Debug)]
pub enum AuthError {
    /// The streaming connection's initialization payload carried no usable
    /// token; fatal to connection setup.
    MissingToken,
    /// The subscription authorizer rejected the presented token; the
    /// connection itself remains usable.
    Forbidden,
}

} // verus!
