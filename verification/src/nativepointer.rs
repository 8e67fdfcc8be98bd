//! Pointers into the instrumented target.
use vstd::prelude::*;
use crate::fromsys::FromSys;
use crate::handle::ForeignHandle;

verus! {

/// A pointer on the instrumented target, held as the handle under which the
/// host knows it.
///
/// The pointer's numeric value stays with the host: registers and addresses
/// are handed around as handles, never as decoded integers.
#[derive(Clone, Copy, Debug, PartialEq, Eq, Structural)]
pub struct NativePointer(pub ForeignHandle);

impl View for NativePointer {
    type V = u64;

    /// The token of the wrapped handle.
    open spec fn view(&self) -> u64 {
        self.0@
    }
}

impl FromSys<ForeignHandle> for NativePointer {
    /// Any handle can be wrapped as a pointer.
    open spec fn decodable(s: &ForeignHandle) -> bool {
        true
    }

    open spec fn raw(&self) -> ForeignHandle {
        self.0
    }

    /// Wraps a handle that the host gave out for a pointer.
    fn from_sys(m: ForeignHandle) -> (p: Self)
        ensures
            p == NativePointer(m),
    {
        let p = NativePointer(m);
        assert(p.raw() == m);
        p
    }

    /// Gives back the handle that the pointer was made from.
    fn into_sys(self) -> (m: ForeignHandle) {
        self.0
    }
}

impl NativePointer {
    /// Wraps any host value as a pointer, without looking at it.
    pub fn from_jsvalue(s: ForeignHandle) -> (p: Self)
        ensures
            p == NativePointer(s),
    {
        NativePointer(s)
    }

    /// Lends the handle that the pointer was made from.
    pub fn to_sys(&self) -> (m: &ForeignHandle)
        ensures
            *m == self.0,
    {
        &self.0
    }

    /// Whether the pointer wraps the host's `null` or `undefined`.
    pub fn is_nullish(&self) -> (b: bool)
        ensures
            b == self.0.spec_is_nullish(),
    {
        self.0.is_nullish()
    }
}

} // verus!
