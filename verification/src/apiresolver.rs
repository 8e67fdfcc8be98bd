//! Resolving functions by name.
use vstd::prelude::*;
use vstd::string::StringExecFns;
use crate::error::HostError;
use crate::handle::ForeignHandle;
use crate::nativepointer::NativePointer;
use crate::sys;

verus! {

/// The kind of resolver to create.
#[derive(Clone, Copy, Debug, PartialEq, Eq, Structural)]
pub enum Type {
    /// Resolves exported and imported functions of the shared libraries
    /// that are loaded. Always available.
    Module,
    /// Resolves Objective-C methods of the classes that are loaded.
    Objc,
}

impl Type {
    /// The host's word for the kind of resolver.
    pub open spec fn spec_to_string(&self) -> Seq<char> {
        match self {
            Type::Module => "module"@,
            Type::Objc => "objc"@,
        }
    }

    /// The host's word for the kind of resolver.
    pub fn to_string(&self) -> (text: String)
        ensures
            text@ == self.spec_to_string(),
    {
        match self {
            Type::Module => String::from_str("module"),
            Type::Objc => String::from_str("objc"),
        }
    }
}

/// One function that a resolver query matched.
#[derive(Clone, Debug, PartialEq, Eq)]
pub struct Match {
    pub name: String,
    pub address: NativePointer,
}

impl Match {
    /// The typed value of a raw match.
    pub open spec fn spec_from(m: sys::ApiMatch) -> Match {
        Match { name: m.name, address: NativePointer(m.address) }
    }

    /// Decodes a raw match.
    pub fn from(m: sys::ApiMatch) -> (typed: Self)
        ensures
            typed == Self::spec_from(m),
    {
        Match { name: m.name, address: NativePointer::from_jsvalue(m.address) }
    }
}

/// The typed values of a list of raw matches, in the same order.
pub open spec fn matches_from(raw: Seq<sys::ApiMatch>) -> Seq<Match> {
    raw.map_values(|m: sys::ApiMatch| Match::spec_from(m))
}

/// A resolver that the host created, used to find functions by name.
#[derive(Clone, Debug, PartialEq, Eq)]
pub struct ApiResolver(ForeignHandle);

impl ApiResolver {
    /// The handle under which the host knows the resolver.
    pub closed spec fn raw(&self) -> ForeignHandle {
        self.0
    }

    /// Wraps the handle of a resolver that the host created.
    pub fn new(reply: ForeignHandle) -> (resolver: Self)
        ensures
            resolver.raw() == reply,
    {
        ApiResolver(reply)
    }

    /// The handle to name the resolver by when querying it.
    pub fn to_sys(&self) -> (handle: ForeignHandle)
        ensures
            handle == self.raw(),
    {
        self.0
    }

    /// Decodes the host's reply to a query.
    ///
    /// Where the host failed, its error is passed on as it came. Otherwise
    /// the matches are decoded one for one and in order.
    pub fn enumerate_matches(&self, reply: Result<Vec<sys::ApiMatch>, HostError>) -> (r: Result<
        Vec<Match>,
        HostError,
    >)
        ensures
            match reply {
                Ok(raw) => r matches Ok(found) && found@ =~= matches_from(raw@),
                Err(e) => r == Err::<Vec<Match>, HostError>(e),
            },
    {
        let raw_matches = match reply {
            Ok(raw_matches) => raw_matches,
            Err(e) => {
                return Err(e);
            },
        };
        let mut found: Vec<Match> = Vec::new();
        let ghost raw = raw_matches@;
        for m in iter: raw_matches
            invariant
                iter.seq() == raw,
                found@.len() == iter.index(),
                forall|k: int| 0 <= k < found@.len() ==> #[trigger] found@[k] == Match::spec_from(raw[k]),
        {
            found.push(Match::from(m));
        }
        Ok(found)
    }
}

} // verus!
