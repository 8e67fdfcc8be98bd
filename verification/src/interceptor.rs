//! What an interception callback is told about the call it intercepts.
use vstd::prelude::*;
use crate::arch::{architecture_named, register_names};
use crate::cpu::CpuContext;
use crate::error::MissingField;
use crate::extract::{has_all, reports_first_missing};
use crate::handle::ForeignHandle;
use crate::nativepointer::NativePointer;
use crate::sys;

verus! {

/// The state of the program at the point of interception.
///
/// The handle of the host's own context object is kept, so that values can
/// be stored on it and read back during the same invocation.
#[derive(Clone, Debug, PartialEq, Eq)]
pub struct InvocationContext {
    /// Return address of the intercepted function.
    pub return_address: NativePointer,
    /// Current CPU context.
    pub context: CpuContext,
    /// OS thread ID.
    pub thread_id: u32,
    /// Call depth relative to other invocations.
    pub depth: u32,
    _js: ForeignHandle,
}

impl InvocationContext {
    /// The handle of the host's context object.
    pub closed spec fn raw(&self) -> ForeignHandle {
        self._js
    }

    /// The return address of the intercepted function.
    pub closed spec fn spec_return_address(&self) -> NativePointer {
        self.return_address
    }

    /// The decoded CPU context.
    pub closed spec fn spec_context(&self) -> CpuContext {
        self.context
    }

    /// The OS thread ID.
    pub closed spec fn spec_thread_id(&self) -> u32 {
        self.thread_id
    }

    /// The call depth.
    pub closed spec fn spec_depth(&self) -> u32 {
        self.depth
    }

    /// Whether `self` is the decoding of the raw invocation context `m`
    /// for the architecture called `arch`.
    pub open spec fn decodes(&self, m: sys::InvocationContext, arch: Seq<char>) -> bool {
        &&& self.raw() == m.handle
        &&& self.spec_return_address() == NativePointer(m.return_address)
        &&& self.spec_thread_id() == m.thread_id
        &&& self.spec_depth() == m.depth
        &&& self.spec_context().spec_architecture() == architecture_named(arch)
        &&& self.spec_context().raw() == m.context
        &&& self.spec_context().well_formed()
    }

    /// Decodes a raw invocation context, its CPU context by the layout
    /// that the host's architecture identifier `arch` selects.
    ///
    /// Succeeds exactly when the CPU context has every register of the
    /// layout; the error names the first one that is missing.
    pub fn from(m: sys::InvocationContext, arch: &str) -> (r: Result<Self, MissingField>)
        ensures
            r is Ok <==> has_all(m.context.properties@, register_names(architecture_named(arch@))),
            r matches Ok(c) ==> c.decodes(m, arch@),
            r matches Err(e) ==> reports_first_missing(
                e,
                m.context.properties@,
                architecture_named(arch@),
            ),
    {
        match CpuContext::from_sys(m.context, arch) {
            Ok(context) => Ok(
                InvocationContext {
                    return_address: NativePointer::from_jsvalue(m.return_address),
                    context,
                    thread_id: m.thread_id,
                    depth: m.depth,
                    _js: m.handle,
                },
            ),
            Err(e) => Err(e),
        }
    }

    /// The handle to name the context object by when storing values on it
    /// or reading them back.
    pub fn to_sys(&self) -> (handle: ForeignHandle)
        ensures
            handle == self.raw(),
    {
        self._js
    }
}

} // verus!
