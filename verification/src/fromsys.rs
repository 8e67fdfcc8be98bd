//! The two-way mapping between raw host values and typed values.
use vstd::prelude::*;

verus! {

/// The codec that every typed wrapper of a raw host value follows.
///
/// Decoding builds a typed value from a raw value and keeps the raw value
/// inside it. Encoding hands that raw value back as it was received;
/// nothing is rebuilt from the typed fields. Neither direction calls the
/// host.
pub trait FromSys<T>: Sized {
    /// Whether a raw value can be decoded as `Self`.
    spec fn decodable(s: &T) -> bool;

    /// The raw value that a typed value was decoded from.
    spec fn raw(&self) -> T;

    /// Decodes a raw value. The caller vouches for its kind.
    fn from_sys(s: T) -> (typed: Self)
        requires
            Self::decodable(&s),
        ensures
            typed.raw() == s,
    ;

    /// Gives back the raw value that `self` was decoded from.
    fn into_sys(self) -> (s: T)
        ensures
            s == self.raw(),
    ;
}

/// Encoding what was decoded gives the raw value back: whenever `typed` was
/// decoded from `s` and `back` is what encoding `typed` returns, `back` is
/// `s` itself.
pub proof fn round_trip_identity<T, W: FromSys<T>>(s: T, typed: W, back: T)
    requires
        typed.raw() == s,
        back == typed.raw(),
    ensures
        back == s,
{
}

} // verus!
