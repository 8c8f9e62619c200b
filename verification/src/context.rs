//! The per-execution context store.
//!
//! One store is created for each execution — one synchronous request, or one
//! streaming session — and holds at most one credential. Absence is a valid
//! state, distinct from presence with an empty string.

use vstd::prelude::*;

use crate::auth::Credential;

verus! {

/// The key-value container an execution engine exposes to resolvers,
/// specialized to the one kind of value this core ever stores: zero or one
/// [`Credential`].
///
/// Its view is the stored token string, if any.
pub struct ExecutionContext {
    credential: Option<Credential>,
}

impl View for ExecutionContext {
    type V = Option<Seq<char>>;

    closed spec fn view(&self) -> Option<Seq<char>> {
        match self.credential {
            Some(c) => Some(c@),
            None => None,
        }
    }
}

impl ExecutionContext {
    /// A fresh store with no credential: anonymous execution.
    pub fn new() -> (ctx: ExecutionContext)
        ensures
            ctx@ is None,
    {
        ExecutionContext { credential: None }
    }

    /// Installs the credential for this execution, replacing any earlier
    /// one, so that at most one entry ever exists.
    pub fn insert_credential(&mut self, c: Credential)
        ensures
            final(self)@ == Some(c@),
    {
        self.credential = Some(c);
    }

    /// The stored credential, if any. Absence is not an error here.
    pub fn credential(&self) -> (r: Option<&Credential>)
        ensures
            match r {
                Some(c) => self@ == Some(c@),
                None => self@ is None,
            },
    {
        self.credential.as_ref()
    }

    /// The stored credential, under the strict contract of the subscription
    /// path: the caller guarantees that the initializer step has installed
    /// one.
    pub fn credential_required(&self) -> (c: &Credential)
        requires
            self@ is Some,
        ensures
            Some(c@) == self@,
    {
        match self.credential.as_ref() {
            Some(c) => c,
            None => vstd::pervasive::unreached(),
        }
    }
}

} // verus!
