//! Opaque references to data owned by the host.
use vstd::prelude::*;

verus! {

/// Token under which the host's `undefined` value is known.
pub const UNDEFINED_TOKEN: u64 = 0;

/// Token under which the host's `null` value is known.
pub const NULL_TOKEN: u64 = 1;

/// An opaque reference to a value that the host owns.
///
/// A handle carries nothing but the identity token under which the host
/// knows the value. Two handles name the same host value exactly when their
/// tokens are equal.
#[derive(Clone, Copy, Debug, PartialEq, Eq, Structural)]
pub struct ForeignHandle {
    token: u64,
}

impl View for ForeignHandle {
    type V = u64;

    closed spec fn view(&self) -> u64 {
        self.token
    }
}

impl ForeignHandle {
    /// Whether the handle names the host's `null`.
    pub open spec fn spec_is_null(&self) -> bool {
        self@ == NULL_TOKEN
    }

    /// Whether the handle names the host's `undefined`.
    pub open spec fn spec_is_undefined(&self) -> bool {
        self@ == UNDEFINED_TOKEN
    }

    /// Whether the handle names no value at all: `null` or `undefined`.
    pub open spec fn spec_is_nullish(&self) -> bool {
        self.spec_is_null() || self.spec_is_undefined()
    }

    /// Handles with one token are one handle.
    pub proof fn equal_by_token(self, other: Self)
        requires
            self@ == other@,
        ensures
            self == other,
    {
    }

    /// Rebuilds a handle from a token that the host gave out earlier.
    pub fn from_token(token: u64) -> (h: Self)
        ensures
            h@ == token,
    {
        ForeignHandle { token }
    }

    /// The handle of the host's `null`.
    pub fn null() -> (h: Self)
        ensures
            h@ == NULL_TOKEN,
            h.spec_is_null(),
    {
        ForeignHandle { token: NULL_TOKEN }
    }

    /// The handle of the host's `undefined`.
    pub fn undefined() -> (h: Self)
        ensures
            h@ == UNDEFINED_TOKEN,
            h.spec_is_undefined(),
    {
        ForeignHandle { token: UNDEFINED_TOKEN }
    }

    /// The token under which the host knows the value.
    pub fn token(&self) -> (t: u64)
        ensures
            t == self@,
    {
        self.token
    }

    #[verifier::when_used_as_spec(spec_is_null)]
    pub fn is_null(&self) -> (b: bool)
        ensures
            b == self.spec_is_null(),
    {
        self.token == NULL_TOKEN
    }

    #[verifier::when_used_as_spec(spec_is_undefined)]
    pub fn is_undefined(&self) -> (b: bool)
        ensures
            b == self.spec_is_undefined(),
    {
        self.token == UNDEFINED_TOKEN
    }

    #[verifier::when_used_as_spec(spec_is_nullish)]
    pub fn is_nullish(&self) -> (b: bool)
        ensures
            b == self.spec_is_nullish(),
    {
        self.token == NULL_TOKEN || self.token == UNDEFINED_TOKEN
    }
}

} // verus!
