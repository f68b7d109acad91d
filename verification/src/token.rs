//! Handles to native resources.

use vstd::multiset::Multiset;
use vstd::prelude::*;
use crate::errors::Error;
use crate::native::{Call, Release, Reply};

verus! {

/// The owner of one native reference to a discoverable resource.
///
/// A token is never null. It cannot be copied: a second token for the same
/// resource is made by the runtime, and each of the two is released on its
/// own.
#[derive(Debug, PartialEq, Eq)]
pub struct Token {
    raw: usize,
}

impl Token {
    #[verifier::type_invariant]
    spec fn never_null(self) -> bool {
        self.raw != 0
    }

    /// The native reference that this token owns.
    pub closed spec fn spec_raw(&self) -> usize {
        self.raw
    }

    /// The token that owns `raw`.
    pub closed spec fn spec_from_raw(raw: usize) -> Token {
        Token { raw }
    }

    /// Takes ownership of a native reference.
    pub fn from_raw(raw: usize) -> (token: Token)
        requires
            raw != 0,
        ensures
            token == Token::spec_from_raw(raw),
            token.spec_raw() == raw,
    {
        Token { raw }
    }

    /// The call that asks the runtime for the property set of the resource
    /// behind this token.
    pub fn get_properties(&self) -> (call: Call)
        ensures
            call == (Call::GetProperties { token: self.spec_raw() }),
    {
        Call::GetProperties { token: self.raw }
    }

    /// The native reference that this token owns.
    #[verifier::when_used_as_spec(spec_raw)]
    pub fn raw(&self) -> (raw: usize)
        ensures
            raw == self.spec_raw(),
            raw != 0,
    {
        proof {
            use_type_invariant(self);
        }
        self.raw
    }

    /// The call that asks the runtime for a second token for the same
    /// resource.
    pub fn duplicate(&self) -> (call: Call)
        ensures
            call == (Call::CloneToken { token: self.spec_raw() }),
    {
        Call::CloneToken { token: self.raw }
    }

    /// The token that the runtime made in answer to `duplicate`. The
    /// runtime is expected never to refuse: a reply that carries no token is
    /// left out.
    pub fn cloned(&self, reply: &Reply) -> (token: Token)
        requires
            reply.spec_token() is Ok,
        ensures
            reply.spec_token() == Ok::<usize, Error>(token.spec_raw()),
            token == Token::spec_from_raw(token.spec_raw()),
    {
        match reply.token() {
            Ok(raw) => Token { raw },
            Err(_) => Token { raw: self.raw() },
        }
    }

    /// What `release` returns.
    pub open spec fn spec_release(self) -> Release {
        Release::Token(self.spec_raw())
    }

    /// The native object that this token owns.
    pub open spec fn spec_holds(self) -> Multiset<Release> {
        Multiset::singleton(Release::Token(self.spec_raw()))
    }

    /// Gives the reference up: the native object to destroy. It is the one
    /// that this token owns, and no other.
    pub fn release(self) -> (release: Release)
        ensures
            release == self.spec_release(),
    {
        Release::Token(self.raw)
    }
}

/// Giving up a token that the runtime made as a second one leaves the
/// first alone: where the two own references of their own, what is released
/// for the second is not the first's reference, and the first still owns
/// what it owned.
pub proof fn lemma_token_clone_is_released_alone(first: Token, second: Token)
    requires
        first.spec_raw() != second.spec_raw(),
    ensures
        second.spec_release() == Release::Token(second.spec_raw()),
        second.spec_release() != first.spec_release(),
{
}

/// A token is told by the reference that it owns.
pub broadcast proof fn lemma_token_raw(raw: usize)
    ensures
        (#[trigger] Token::spec_from_raw(raw)).spec_raw() == raw,
{
}

} // verus!
