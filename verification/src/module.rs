//! Modules loaded into the instrumented process, and what they export,
//! import and define.
use vstd::prelude::*;
use crate::fromsys::FromSys;
use crate::handle::ForeignHandle;
use crate::nativepointer::NativePointer;
use crate::range::{decode_ranges, ranges_from, RangeDetails};
use crate::sys;

verus! {

/// What a module record says, as mathematical values.
pub struct ModuleView {
    pub name: Seq<char>,
    pub base: ForeignHandle,
    pub size: usize,
    pub path: Seq<char>,
}

impl View for sys::Module {
    type V = ModuleView;

    open spec fn view(&self) -> ModuleView {
        ModuleView { name: self.name@, base: self.base, size: self.size, path: self.path@ }
    }
}

/// A loaded module.
#[derive(Clone, Debug, PartialEq, Eq)]
pub struct Module {
    /// Canonical module name.
    pub name: String,
    /// Base address of the module.
    pub base: NativePointer,
    /// Size of the module in bytes.
    pub size: usize,
    /// Full filesystem path of the module.
    pub path: String,
    sys: sys::Module,
}

impl View for Module {
    type V = ModuleView;

    closed spec fn view(&self) -> ModuleView {
        ModuleView { name: self.name@, base: self.base.0, size: self.size, path: self.path@ }
    }
}

impl FromSys<sys::Module> for Module {
    /// Any raw module can be decoded; its shape is not checked.
    open spec fn decodable(s: &sys::Module) -> bool {
        true
    }

    closed spec fn raw(&self) -> sys::Module {
        self.sys
    }

    /// Decodes a raw module: the typed fields say what the raw module
    /// says, and the raw module is kept.
    fn from_sys(m: sys::Module) -> (typed: Self)
        ensures
            typed@ == m@,
    {
        let typed = Module {
            name: m.name.clone(),
            base: NativePointer::from_sys(m.base),
            size: m.size,
            path: m.path.clone(),
            sys: m,
        };
        assert(typed.raw() == m);
        typed
    }

    fn into_sys(self) -> (m: sys::Module) {
        self.sys
    }
}

/// The base address behind a host reply: none where the host answered
/// `null`, the pointer otherwise.
pub open spec fn base_address_of(reply: ForeignHandle) -> Option<NativePointer> {
    if reply.spec_is_null() {
        None
    } else {
        Some(NativePointer(reply))
    }
}

/// Decodes the host's reply to a query for the base address of a module
/// by name.
pub fn get_base_address(reply: ForeignHandle) -> (base: Option<NativePointer>)
    ensures
        base == base_address_of(reply),
{
    if reply.is_null() {
        return None;
    }
    Some(NativePointer::from_sys(reply))
}

/// Decodes the host's reply to a query for the address of an export by
/// name: none where the host answered `null`, the pointer otherwise.
pub fn get_export(reply: ForeignHandle) -> (address: Option<NativePointer>)
    ensures
        address == base_address_of(reply),
{
    if reply.is_null() {
        return None;
    }
    Some(NativePointer::from_sys(reply))
}

/// An export of a module.
#[derive(Clone, Debug, PartialEq, Eq)]
pub struct ExportDetails {
    /// Kind of the export, `function` or `variable`.
    pub export_type: String,
    pub name: String,
    pub address: NativePointer,
}

impl ExportDetails {
    /// The typed value of a raw export.
    pub open spec fn spec_from(m: sys::ExportDetails) -> ExportDetails {
        ExportDetails { export_type: m.export_type, name: m.name, address: NativePointer(m.address) }
    }

    /// Decodes a raw export.
    pub fn from(m: sys::ExportDetails) -> (typed: Self)
        ensures
            typed == Self::spec_from(m),
    {
        ExportDetails {
            export_type: m.export_type,
            name: m.name,
            address: NativePointer::from_sys(m.address),
        }
    }
}

/// The pointer behind an optional handle.
pub open spec fn pointer_of(handle: Option<ForeignHandle>) -> Option<NativePointer> {
    match handle {
        Some(h) => Some(NativePointer(h)),
        None => None,
    }
}

/// An import of a module.
#[derive(Clone, Debug, PartialEq, Eq)]
pub struct ImportDetails {
    /// Kind of the import, `function` or `variable`, where the host knows it.
    pub import_type: Option<String>,
    pub name: String,
    /// Name of the module that the import comes from, where the host knows it.
    pub module: Option<String>,
    pub address: Option<NativePointer>,
    /// Where the import is stored, where the host knows it.
    pub slot: Option<NativePointer>,
}

impl ImportDetails {
    /// The typed value of a raw import.
    pub open spec fn spec_from(m: sys::ImportDetails) -> ImportDetails {
        ImportDetails {
            import_type: m.import_type,
            name: m.name,
            module: m.module,
            address: pointer_of(m.address),
            slot: pointer_of(m.slot),
        }
    }

    /// Decodes a raw import.
    pub fn from(m: sys::ImportDetails) -> (typed: Self)
        ensures
            typed == Self::spec_from(m),
    {
        ImportDetails {
            import_type: m.import_type,
            name: m.name,
            module: m.module,
            address: match m.address {
                Some(h) => Some(NativePointer::from_sys(h)),
                None => None,
            },
            slot: match m.slot {
                Some(h) => Some(NativePointer::from_sys(h)),
                None => None,
            },
        }
    }
}

/// The section that a symbol lies in.
#[derive(Clone, Debug, PartialEq, Eq)]
pub struct SymbolSectionDetails {
    pub id: String,
    /// Protection of the section, in the form `rwx`.
    pub protection: String,
}

impl SymbolSectionDetails {
    /// The typed value of a raw section.
    pub open spec fn spec_from(m: sys::SymbolSectionDetails) -> SymbolSectionDetails {
        SymbolSectionDetails { id: m.id, protection: m.protection }
    }

    /// Decodes a raw section.
    pub fn from(m: sys::SymbolSectionDetails) -> (typed: Self)
        ensures
            typed == Self::spec_from(m),
    {
        SymbolSectionDetails { id: m.id, protection: m.protection }
    }
}

/// A symbol of a module.
#[derive(Clone, Debug, PartialEq, Eq)]
pub struct SymbolDetails {
    pub is_global: bool,
    pub symbol_type: String,
    pub section: Option<SymbolSectionDetails>,
    pub name: String,
    pub address: NativePointer,
    pub size: Option<usize>,
}

impl SymbolDetails {
    /// The typed value of a raw symbol.
    pub open spec fn spec_from(m: sys::SymbolDetails) -> SymbolDetails {
        SymbolDetails {
            is_global: m.is_global,
            symbol_type: m.symbol_type,
            section: match m.section {
                Some(s) => Some(SymbolSectionDetails::spec_from(s)),
                None => None,
            },
            name: m.name,
            address: NativePointer(m.address),
            size: m.size,
        }
    }

    /// Decodes a raw symbol.
    pub fn from(m: sys::SymbolDetails) -> (typed: Self)
        ensures
            typed == Self::spec_from(m),
    {
        SymbolDetails {
            is_global: m.is_global,
            symbol_type: m.symbol_type,
            section: match m.section {
                Some(s) => Some(SymbolSectionDetails::from(s)),
                None => None,
            },
            name: m.name,
            address: NativePointer::from_sys(m.address),
            size: m.size,
        }
    }
}

/// The typed values of a list of raw exports, in the same order.
pub open spec fn exports_from(raw: Seq<sys::ExportDetails>) -> Seq<ExportDetails> {
    raw.map_values(|m: sys::ExportDetails| ExportDetails::spec_from(m))
}

/// The typed values of a list of raw imports, in the same order.
pub open spec fn imports_from(raw: Seq<sys::ImportDetails>) -> Seq<ImportDetails> {
    raw.map_values(|m: sys::ImportDetails| ImportDetails::spec_from(m))
}

/// The typed values of a list of raw symbols, in the same order.
pub open spec fn symbols_from(raw: Seq<sys::SymbolDetails>) -> Seq<SymbolDetails> {
    raw.map_values(|m: sys::SymbolDetails| SymbolDetails::spec_from(m))
}

impl Module {
    /// The handle to name the module by when asking the host about it.
    pub fn to_sys(&self) -> (handle: ForeignHandle)
        ensures
            handle == self.raw().handle,
    {
        self.sys.handle
    }

    /// Decodes the host's list of the module's exports, one for one and in
    /// order.
    pub fn enumerate_exports(&self, reply: Vec<sys::ExportDetails>) -> (exports: Vec<ExportDetails>)
        ensures
            exports@ =~= exports_from(reply@),
    {
        let mut exports: Vec<ExportDetails> = Vec::new();
        let ghost raw = reply@;
        for m in iter: reply
            invariant
                iter.seq() == raw,
                exports@.len() == iter.index(),
                forall|k: int|
                    0 <= k < exports@.len() ==> #[trigger] exports@[k] == ExportDetails::spec_from(
                        raw[k],
                    ),
        {
            exports.push(ExportDetails::from(m));
        }
        exports
    }

    /// Decodes the host's list of the module's imports, one for one and in
    /// order.
    pub fn enumerate_imports(&self, reply: Vec<sys::ImportDetails>) -> (imports: Vec<ImportDetails>)
        ensures
            imports@ =~= imports_from(reply@),
    {
        let mut imports: Vec<ImportDetails> = Vec::new();
        let ghost raw = reply@;
        for m in iter: reply
            invariant
                iter.seq() == raw,
                imports@.len() == iter.index(),
                forall|k: int|
                    0 <= k < imports@.len() ==> #[trigger] imports@[k] == ImportDetails::spec_from(
                        raw[k],
                    ),
        {
            imports.push(ImportDetails::from(m));
        }
        imports
    }

    /// Decodes the host's list of the module's symbols, one for one and in
    /// order.
    pub fn enumerate_symbols(&self, reply: Vec<sys::SymbolDetails>) -> (symbols: Vec<SymbolDetails>)
        ensures
            symbols@ =~= symbols_from(reply@),
    {
        let mut symbols: Vec<SymbolDetails> = Vec::new();
        let ghost raw = reply@;
        for m in iter: reply
            invariant
                iter.seq() == raw,
                symbols@.len() == iter.index(),
                forall|k: int|
                    0 <= k < symbols@.len() ==> #[trigger] symbols@[k] == SymbolDetails::spec_from(
                        raw[k],
                    ),
        {
            symbols.push(SymbolDetails::from(m));
        }
        symbols
    }

    /// Decodes the host's list of the module's memory ranges, one for one
    /// and in order.
    pub fn enumerate_ranges(&self, reply: Vec<sys::RangeDetails>) -> (ranges: Vec<RangeDetails>)
        ensures
            ranges@ =~= ranges_from(reply@),
    {
        decode_ranges(reply)
    }
}

} // verus!
