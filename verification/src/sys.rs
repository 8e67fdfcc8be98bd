//! What the host hands over, before it is decoded.
//!
//! Each record holds, as plain values, the handle of a host object and what
//! was read from it. Nothing here interprets the values.
use vstd::prelude::*;
use crate::handle::ForeignHandle;
use crate::text::same_text;

verus! {

/// One named property of a host object, with the handle of its value.
#[derive(Clone, Debug, PartialEq, Eq)]
pub struct Property {
    pub name: String,
    pub value: ForeignHandle,
}

/// A CPU context as the host hands it over: the handle of the context
/// object and the named properties read from it.
#[derive(Clone, Debug, PartialEq, Eq)]
pub struct CpuContext {
    pub handle: ForeignHandle,
    pub properties: Vec<Property>,
}

/// A loaded module as the host describes it.
///
/// Where a lookup finds no module the host answers with `null`: the record
/// then holds the `null` handle, and its other fields carry no meaning.
#[derive(Clone, Debug, PartialEq, Eq)]
pub struct Module {
    pub handle: ForeignHandle,
    pub name: String,
    pub base: ForeignHandle,
    pub size: usize,
    pub path: String,
}

/// An export of a module as the host describes it.
#[derive(Clone, Debug, PartialEq, Eq)]
pub struct ExportDetails {
    pub export_type: String,
    pub name: String,
    pub address: ForeignHandle,
}

/// An import of a module as the host describes it.
#[derive(Clone, Debug, PartialEq, Eq)]
pub struct ImportDetails {
    pub import_type: Option<String>,
    pub name: String,
    pub module: Option<String>,
    pub address: Option<ForeignHandle>,
    pub slot: Option<ForeignHandle>,
}

/// The section of a symbol as the host describes it.
#[derive(Clone, Debug, PartialEq, Eq)]
pub struct SymbolSectionDetails {
    pub id: String,
    pub protection: String,
}

/// A symbol of a module as the host describes it.
#[derive(Clone, Debug, PartialEq, Eq)]
pub struct SymbolDetails {
    pub is_global: bool,
    pub symbol_type: String,
    pub section: Option<SymbolSectionDetails>,
    pub name: String,
    pub address: ForeignHandle,
    pub size: Option<usize>,
}

/// The file behind a memory range as the host describes it.
#[derive(Clone, Debug, PartialEq, Eq)]
pub struct FileMapping {
    pub path: String,
    pub offset: usize,
    pub size: usize,
}

/// A memory range as the host describes it.
///
/// Where a lookup finds no range the host answers with `null`: the record
/// then holds the `null` handle, and its other fields carry no meaning.
#[derive(Clone, Debug, PartialEq, Eq)]
pub struct RangeDetails {
    pub handle: ForeignHandle,
    pub base: ForeignHandle,
    pub size: usize,
    pub protection: String,
    pub file: Option<FileMapping>,
}

/// A thread as the host describes it.
#[derive(Clone, Debug, PartialEq, Eq)]
pub struct ThreadDetails {
    pub id: u32,
    pub state: String,
    pub context: CpuContext,
}

/// A debug symbol as the host describes it.
#[derive(Clone, Debug, PartialEq, Eq)]
pub struct DebugSymbol {
    pub handle: ForeignHandle,
    pub address: ForeignHandle,
    pub name: Option<String>,
    pub module_name: Option<String>,
    pub file_name: Option<String>,
    pub line_number: Option<u32>,
}

/// What the host knows of an intercepted call at the moment it hands over
/// control.
#[derive(Clone, Debug, PartialEq, Eq)]
pub struct InvocationContext {
    pub handle: ForeignHandle,
    pub return_address: ForeignHandle,
    pub context: CpuContext,
    pub thread_id: u32,
    pub depth: u32,
}

/// One match of a resolver query as the host describes it.
#[derive(Clone, Debug, PartialEq, Eq)]
pub struct ApiMatch {
    pub name: String,
    pub address: ForeignHandle,
}

/// One match of a memory scan as the host describes it.
#[derive(Clone, Debug, PartialEq, Eq)]
pub struct MemoryMatch {
    pub address: ForeignHandle,
    pub size: usize,
}

/// What the host reports of the instrumented process. None of it changes
/// while the process lives.
#[derive(Clone, Debug, PartialEq, Eq)]
pub struct Process {
    pub id: u32,
    pub arch: String,
    pub platform: String,
    pub page_size: usize,
    pub pointer_size: usize,
    pub code_signing_policy: String,
}

/// The value of the first property called `name` at or after position
/// `start`, if there is one.
pub open spec fn lookup_from(properties: Seq<Property>, name: Seq<char>, start: int) -> Option<
    ForeignHandle,
>
    decreases properties.len() - start,
{
    if start < 0 || start >= properties.len() {
        None
    } else if properties[start].name@ == name {
        Some(properties[start].value)
    } else {
        lookup_from(properties, name, start + 1)
    }
}

/// The value of the property called `name`, if the object has one.
pub open spec fn lookup(properties: Seq<Property>, name: Seq<char>) -> Option<ForeignHandle> {
    lookup_from(properties, name, 0)
}

/// Whether the object has a property called `name` whose value is neither
/// `null` nor `undefined`.
pub open spec fn has_value(properties: Seq<Property>, name: Seq<char>) -> bool {
    match lookup(properties, name) {
        Some(value) => !value.spec_is_nullish(),
        None => false,
    }
}

impl CpuContext {
    /// Reads the property called `name` from the context.
    pub fn get_named_property(&self, name: &str) -> (value: Option<ForeignHandle>)
        ensures
            value == lookup(self.properties@, name@),
    {
        let mut i: usize = 0;
        while i < self.properties.len()
            invariant
                0 <= i <= self.properties@.len(),
                lookup(self.properties@, name@) == lookup_from(self.properties@, name@, i as int),
            decreases self.properties@.len() - i,
        {
            if same_text(self.properties[i].name.as_str(), name) {
                return Some(self.properties[i].value);
            }
            i += 1;
        }
        None
    }
}

} // verus!
