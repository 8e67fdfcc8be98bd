//! Memory ranges of the instrumented process.
use vstd::prelude::*;
use crate::nativepointer::NativePointer;
use crate::sys;

verus! {

/// A memory range.
#[derive(Clone, Debug, PartialEq, Eq)]
pub struct RangeDetails {
    /// Base address of the range.
    pub base: NativePointer,
    /// Size of the range in bytes.
    pub size: usize,
    /// Protection of the range, in the form `rwx`.
    pub protection: String,
    /// The file mapped into the range, if there is one.
    pub file: Option<FileMapping>,
}

/// The file mapped into a memory range.
#[derive(Clone, Debug, PartialEq, Eq)]
pub struct FileMapping {
    /// Full filesystem path of the file.
    pub path: String,
    /// Offset of the mapping within the file, in bytes.
    pub offset: usize,
    /// Size of the mapping, in bytes.
    pub size: usize,
}

impl FileMapping {
    /// The typed value of a raw file mapping.
    pub open spec fn spec_from(m: sys::FileMapping) -> FileMapping {
        FileMapping { path: m.path, offset: m.offset, size: m.size }
    }

    /// Decodes a raw file mapping.
    pub fn from(m: sys::FileMapping) -> (typed: Self)
        ensures
            typed == Self::spec_from(m),
    {
        FileMapping { path: m.path, offset: m.offset, size: m.size }
    }
}

impl RangeDetails {
    /// The typed value of a raw memory range.
    pub open spec fn spec_from(m: sys::RangeDetails) -> RangeDetails {
        RangeDetails {
            base: NativePointer(m.base),
            size: m.size,
            protection: m.protection,
            file: match m.file {
                Some(f) => Some(FileMapping::spec_from(f)),
                None => None,
            },
        }
    }

    /// Decodes a raw memory range.
    pub fn from(m: sys::RangeDetails) -> (typed: Self)
        ensures
            typed == Self::spec_from(m),
    {
        RangeDetails {
            base: NativePointer::from_jsvalue(m.base),
            size: m.size,
            protection: m.protection,
            file: match m.file {
                Some(f) => Some(FileMapping::from(f)),
                None => None,
            },
        }
    }
}

/// The typed values of a list of raw memory ranges, in the same order.
pub open spec fn ranges_from(raw: Seq<sys::RangeDetails>) -> Seq<RangeDetails> {
    raw.map_values(|m: sys::RangeDetails| RangeDetails::spec_from(m))
}

/// Decodes the ranges of a host reply, one for one and in order.
pub fn decode_ranges(reply: Vec<sys::RangeDetails>) -> (ranges: Vec<RangeDetails>)
    ensures
        ranges@ =~= ranges_from(reply@),
{
    let mut ranges: Vec<RangeDetails> = Vec::new();
    let ghost raw = reply@;
    for m in iter: reply
        invariant
            iter.seq() == raw,
            ranges@.len() == iter.index(),
            forall|k: int|
                0 <= k < ranges@.len() ==> #[trigger] ranges@[k] == RangeDetails::spec_from(raw[k]),
    {
        ranges.push(RangeDetails::from(m));
    }
    ranges
}

} // verus!
