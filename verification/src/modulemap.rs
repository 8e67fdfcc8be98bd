//! Maps from addresses to the modules that hold them.
use vstd::prelude::*;
use crate::handle::ForeignHandle;
use crate::module::Module;
use crate::process::{enumerate_modules, get_module_by_address, module_decodes_to};
use crate::sys;

verus! {

/// A module map that the host created.
#[derive(Clone, Debug, PartialEq, Eq)]
pub struct ModuleMap(ForeignHandle);

impl ModuleMap {
    /// The handle under which the host knows the map.
    pub closed spec fn raw(&self) -> ForeignHandle {
        self.0
    }

    /// Wraps the handle of a module map that the host created.
    pub fn new(reply: ForeignHandle) -> (map: Self)
        ensures
            map.raw() == reply,
    {
        ModuleMap(reply)
    }

    /// Wraps the handle of a filtered module map that the host created.
    pub fn new_with_filter(reply: ForeignHandle) -> (map: Self)
        ensures
            map.raw() == reply,
    {
        ModuleMap(reply)
    }

    /// The handle to name the map by when asking the host about it.
    pub fn to_sys(&self) -> (handle: ForeignHandle)
        ensures
            handle == self.raw(),
    {
        self.0
    }

    /// Decodes the host's reply to a lookup of the module that holds an
    /// address: none where the host answered `null`, the decoded module
    /// otherwise.
    pub fn get_module(&self, reply: sys::Module) -> (module: Option<Module>)
        ensures
            module is None <==> reply.handle.spec_is_null(),
            module matches Some(m) ==> module_decodes_to(reply, m),
    {
        get_module_by_address(reply)
    }

    /// Decodes the host's list of the modules in the map, one for one and
    /// in order.
    pub fn values(&self, reply: Vec<sys::Module>) -> (modules: Vec<Module>)
        ensures
            modules@.len() == reply@.len(),
            forall|k: int|
                0 <= k < reply@.len() ==> module_decodes_to(reply@[k], #[trigger] modules@[k]),
    {
        enumerate_modules(reply)
    }
}

} // verus!
