//! What can go wrong while decoding.
use vstd::prelude::*;
use vstd::string::StringExecFns;
use crate::arch::Architecture;

verus! {

/// A register that the layout of an architecture expects was not on the
/// context handed over by the host.
///
/// This happens when a context is decoded against the layout of another
/// architecture. It is not recoverable where it occurs: the error travels
/// unchanged to whoever asked for the decoding.
#[derive(Clone, Debug, PartialEq, Eq)]
pub struct MissingField {
    /// The name of the register that was not there.
    pub field: String,
    /// The architecture whose layout was being decoded.
    pub architecture: Architecture,
}

/// The text of the message for a missing register.
pub open spec fn missing_field_message(field: Seq<char>, architecture: Architecture) -> Seq<char> {
    "missing register `"@ + field + "` while decoding a CPU context of architecture `"@
        + architecture.spec_name() + "`"@
}

impl MissingField {
    /// A message that names the missing register and the architecture
    /// whose layout was tried.
    pub fn message(&self) -> (text: String)
        ensures
            text@ == missing_field_message(self.field@, self.architecture),
    {
        let mut text = String::from_str("missing register `");
        text.append(self.field.as_str());
        text.append("` while decoding a CPU context of architecture `");
        text.append(self.architecture.name());
        text.append("`");
        text
    }
}

/// A call into the host failed; the host's own description of the failure
/// is kept as it came.
#[derive(Clone, Debug, PartialEq, Eq)]
pub struct HostError {
    /// The host's description of what went wrong.
    pub description: String,
}

} // verus!
