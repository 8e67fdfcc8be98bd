//! The instrumented process: what the host reports of it, and its threads,
//! modules and memory ranges.
use vstd::prelude::*;
use crate::fromsys::FromSys;
use crate::module::Module;
use crate::range::{decode_ranges, ranges_from, RangeDetails};
use crate::sys;
use crate::thread::{
    thread_decodable, thread_decodes_to, thread_fails_with, ThreadDetails, ThreadError,
};

verus! {

/// The PID of the instrumented process.
pub fn get_pid(process: &sys::Process) -> (id: u32)
    ensures
        id == process.id,
{
    process.id
}

/// The host's identifier for the architecture of the instrumented process.
pub fn get_arch(process: &sys::Process) -> (arch: &str)
    ensures
        arch@ == process.arch@,
{
    process.arch.as_str()
}

/// The platform of the instrumented process.
pub fn get_platform(process: &sys::Process) -> (platform: &str)
    ensures
        platform@ == process.platform@,
{
    process.platform.as_str()
}

/// The size of a page of the instrumented process, in bytes.
pub fn get_page_size(process: &sys::Process) -> (size: usize)
    ensures
        size == process.page_size,
{
    process.page_size
}

/// The size of a pointer of the instrumented process, in bytes.
pub fn get_pointer_size(process: &sys::Process) -> (size: usize)
    ensures
        size == process.pointer_size,
{
    process.pointer_size
}

/// The code signing policy of the instrumented process.
pub fn get_code_signing_policy(process: &sys::Process) -> (policy: &str)
    ensures
        policy@ == process.code_signing_policy@,
{
    process.code_signing_policy.as_str()
}

/// Whether `t` is the decoding of the raw module `m`.
pub open spec fn module_decodes_to(m: sys::Module, t: Module) -> bool {
    &&& t.raw() == m
    &&& t@ == m@
}

/// Decodes the host's list of the threads of the process, one for one and
/// in order, each context by the layout that the host's architecture
/// identifier `arch` selects.
///
/// Succeeds exactly when every thread can be decoded; otherwise the error
/// is that of the first thread that cannot.
pub fn enumerate_threads(reply: Vec<sys::ThreadDetails>, arch: &str) -> (r: Result<
    Vec<ThreadDetails>,
    ThreadError,
>)
    ensures
        r is Ok <==> forall|k: int| 0 <= k < reply@.len() ==> thread_decodable(#[trigger] reply@[k], arch@),
        r matches Ok(threads) ==> {
            &&& threads@.len() == reply@.len()
            &&& forall|k: int|
                0 <= k < reply@.len() ==> thread_decodes_to(reply@[k], arch@, #[trigger] threads@[k])
        },
        r matches Err(e) ==> exists|k: int|
            {
                &&& 0 <= k < reply@.len()
                &&& forall|j: int| 0 <= j < k ==> thread_decodable(#[trigger] reply@[j], arch@)
                &&& !thread_decodable(reply@[k], arch@)
                &&& #[trigger] thread_fails_with(reply@[k], arch@, e)
            },
{
    let mut threads: Vec<ThreadDetails> = Vec::new();
    let ghost raw = reply@;
    for m in iter: reply
        invariant
            iter.seq() == raw,
            threads@.len() == iter.index(),
            forall|k: int| 0 <= k < threads@.len() ==> thread_decodable(#[trigger] raw[k], arch@),
            forall|k: int|
                0 <= k < threads@.len() ==> thread_decodes_to(raw[k], arch@, #[trigger] threads@[k]),
    {
        match ThreadDetails::from(m, arch) {
            Ok(t) => {
                threads.push(t);
            },
            Err(e) => {
                assert(thread_fails_with(raw[threads@.len() as int], arch@, e));
                return Err(e);
            },
        }
    }
    Ok(threads)
}

/// Decodes the host's list of the loaded modules, one for one and in
/// order.
pub fn enumerate_modules(reply: Vec<sys::Module>) -> (modules: Vec<Module>)
    ensures
        modules@.len() == reply@.len(),
        forall|k: int| 0 <= k < reply@.len() ==> module_decodes_to(reply@[k], #[trigger] modules@[k]),
{
    let mut modules: Vec<Module> = Vec::new();
    let ghost raw = reply@;
    for m in iter: reply
        invariant
            iter.seq() == raw,
            modules@.len() == iter.index(),
            forall|k: int|
                0 <= k < modules@.len() ==> module_decodes_to(raw[k], #[trigger] modules@[k]),
    {
        modules.push(Module::from_sys(m));
    }
    modules
}

/// Decodes the host's reply to a lookup of a module by name: none where
/// the host answered `null`, the decoded module otherwise.
pub fn get_module_by_name(reply: sys::Module) -> (module: Option<Module>)
    ensures
        module is None <==> reply.handle.spec_is_null(),
        module matches Some(m) ==> module_decodes_to(reply, m),
{
    if reply.handle.is_null() {
        return None;
    }
    Some(Module::from_sys(reply))
}

/// Decodes the host's reply to a lookup of a module by an address inside
/// it: none where the host answered `null`, the decoded module otherwise.
pub fn get_module_by_address(reply: sys::Module) -> (module: Option<Module>)
    ensures
        module is None <==> reply.handle.spec_is_null(),
        module matches Some(m) ==> module_decodes_to(reply, m),
{
    if reply.handle.is_null() {
        return None;
    }
    Some(Module::from_sys(reply))
}

/// The range behind a host reply: none where the host answered `null`, the
/// decoded range otherwise.
pub open spec fn range_of(reply: sys::RangeDetails) -> Option<RangeDetails> {
    if reply.handle.spec_is_null() {
        None
    } else {
        Some(RangeDetails::spec_from(reply))
    }
}

/// Decodes the host's reply to a lookup of the memory range that holds an
/// address.
pub fn get_range_by_address(reply: sys::RangeDetails) -> (range: Option<RangeDetails>)
    ensures
        range == range_of(reply),
{
    if reply.handle.is_null() {
        return None;
    }
    Some(RangeDetails::from(reply))
}

/// Decodes the host's list of the memory ranges that satisfy a protection,
/// one for one and in order.
pub fn enumerate_ranges(reply: Vec<sys::RangeDetails>) -> (ranges: Vec<RangeDetails>)
    ensures
        ranges@ =~= ranges_from(reply@),
{
    decode_ranges(reply)
}

/// Decodes the host's list of the allocations known to the system heap,
/// one for one and in order.
pub fn enumerate_malloc_ranges(reply: Vec<sys::RangeDetails>) -> (ranges: Vec<RangeDetails>)
    ensures
        ranges@ =~= ranges_from(reply@),
{
    decode_ranges(reply)
}

} // verus!
