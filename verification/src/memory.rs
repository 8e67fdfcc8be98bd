//! Scanning the memory of the instrumented process.
use vstd::prelude::*;
use crate::nativepointer::NativePointer;
use crate::sys;

verus! {

/// One occurrence that a memory scan found.
#[derive(Clone, Debug, PartialEq, Eq)]
pub struct Match {
    pub address: NativePointer,
    pub size: usize,
}

impl Match {
    /// The typed value of a raw match.
    pub open spec fn spec_from(m: sys::MemoryMatch) -> Match {
        Match { address: NativePointer(m.address), size: m.size }
    }

    /// Decodes a raw match.
    pub fn from(m: sys::MemoryMatch) -> (typed: Self)
        ensures
            typed == Self::spec_from(m),
    {
        Match { address: NativePointer::from_jsvalue(m.address), size: m.size }
    }
}

/// The typed values of a list of raw matches, in the same order.
pub open spec fn matches_from(raw: Seq<sys::MemoryMatch>) -> Seq<Match> {
    raw.map_values(|m: sys::MemoryMatch| Match::spec_from(m))
}

/// Decodes the host's reply to a scan for a pattern, one match for one and
/// in order.
pub fn scan(reply: Vec<sys::MemoryMatch>) -> (found: Vec<Match>)
    ensures
        found@ =~= matches_from(reply@),
{
    let mut found: Vec<Match> = Vec::new();
    let ghost raw = reply@;
    for m in iter: reply
        invariant
            iter.seq() == raw,
            found@.len() == iter.index(),
            forall|k: int| 0 <= k < found@.len() ==> #[trigger] found@[k] == Match::spec_from(raw[k]),
    {
        found.push(Match::from(m));
    }
    found
}

} // verus!
