//! Debug symbols.
use vstd::prelude::*;
use crate::fromsys::FromSys;
use crate::handle::ForeignHandle;
use crate::nativepointer::NativePointer;
use crate::sys;

verus! {

/// The text behind an optional string.
pub open spec fn text_of(s: Option<String>) -> Option<Seq<char>> {
    match s {
        Some(text) => Some(text@),
        None => None,
    }
}

/// What a debug symbol record says, as mathematical values.
pub struct DebugSymbolView {
    pub address: ForeignHandle,
    pub symbol_name: Option<Seq<char>>,
    pub module_name: Option<Seq<char>>,
    pub file_name: Option<Seq<char>>,
    pub line_number: Option<u32>,
}

impl View for sys::DebugSymbol {
    type V = DebugSymbolView;

    open spec fn view(&self) -> DebugSymbolView {
        DebugSymbolView {
            address: self.address,
            symbol_name: text_of(self.name),
            module_name: text_of(self.module_name),
            file_name: text_of(self.file_name),
            line_number: self.line_number,
        }
    }
}

/// What the host knows of the symbol at an address.
#[derive(Clone, Debug, PartialEq, Eq)]
pub struct DebugSymbol {
    /// Address that this symbol is for.
    pub address: NativePointer,
    /// Name of the symbol.
    pub symbol_name: Option<String>,
    /// Name of the module owning this symbol.
    pub module_name: Option<String>,
    /// Name of the file owning this symbol.
    pub file_name: Option<String>,
    /// Line number in `file_name`.
    pub line_number: Option<u32>,
    sys: sys::DebugSymbol,
}

impl View for DebugSymbol {
    type V = DebugSymbolView;

    closed spec fn view(&self) -> DebugSymbolView {
        DebugSymbolView {
            address: self.address.0,
            symbol_name: text_of(self.symbol_name),
            module_name: text_of(self.module_name),
            file_name: text_of(self.file_name),
            line_number: self.line_number,
        }
    }
}

impl FromSys<sys::DebugSymbol> for DebugSymbol {
    /// Any raw symbol can be decoded; its shape is not checked.
    open spec fn decodable(s: &sys::DebugSymbol) -> bool {
        true
    }

    closed spec fn raw(&self) -> sys::DebugSymbol {
        self.sys
    }

    /// Decodes a raw symbol: the typed fields say what the raw symbol
    /// says, and the raw symbol is kept.
    fn from_sys(m: sys::DebugSymbol) -> (typed: Self)
        ensures
            typed@ == m@,
    {
        let typed = DebugSymbol {
            address: NativePointer::from_sys(m.address),
            symbol_name: m.name.clone(),
            module_name: m.module_name.clone(),
            file_name: m.file_name.clone(),
            line_number: m.line_number,
            sys: m,
        };
        assert(typed.raw() == m);
        typed
    }

    fn into_sys(self) -> (m: sys::DebugSymbol) {
        self.sys
    }
}

impl DebugSymbol {
    /// Decodes the host's reply to a query for the symbol of a name.
    pub fn from_name(reply: sys::DebugSymbol) -> (symbol: Self)
        ensures
            symbol.raw() == reply,
            symbol@ == reply@,
    {
        Self::from_sys(reply)
    }

    /// Decodes the host's reply to a query for the symbol at an address.
    pub fn from_address(reply: sys::DebugSymbol) -> (symbol: Self)
        ensures
            symbol.raw() == reply,
            symbol@ == reply@,
    {
        Self::from_sys(reply)
    }

    /// The handle to name the symbol by when asking the host to render it.
    pub fn to_sys(&self) -> (handle: ForeignHandle)
        ensures
            handle == self.raw().handle,
    {
        self.sys.handle
    }
}

/// The pointers behind a list of handles, in the same order.
pub open spec fn pointers_from(raw: Seq<ForeignHandle>) -> Seq<NativePointer> {
    raw.map_values(|h: ForeignHandle| NativePointer(h))
}

/// Wraps each handle of a host reply as a pointer, one for one and in
/// order.
pub fn decode_pointers(reply: Vec<ForeignHandle>) -> (pointers: Vec<NativePointer>)
    ensures
        pointers@ =~= pointers_from(reply@),
{
    let mut pointers: Vec<NativePointer> = Vec::new();
    let mut i: usize = 0;
    while i < reply.len()
        invariant
            0 <= i <= reply@.len(),
            pointers@.len() == i,
            forall|k: int| 0 <= k < i ==> #[trigger] pointers@[k] == NativePointer(reply@[k]),
        decreases reply@.len() - i,
    {
        pointers.push(NativePointer::from_jsvalue(reply[i]));
        i += 1;
    }
    pointers
}

/// Decodes the host's list of the addresses of the functions with a given
/// name.
pub fn find_functions(reply: Vec<ForeignHandle>) -> (addresses: Vec<NativePointer>)
    ensures
        addresses@ =~= pointers_from(reply@),
{
    decode_pointers(reply)
}

/// Decodes the host's list of the addresses of the functions whose names
/// match a glob.
pub fn find_matching_functions(reply: Vec<ForeignHandle>) -> (addresses: Vec<NativePointer>)
    ensures
        addresses@ =~= pointers_from(reply@),
{
    decode_pointers(reply)
}

} // verus!
