//! Threads of the instrumented process.
use vstd::prelude::*;
use vstd::string::StringExecFns;
use crate::arch::{architecture_named, register_names};
use crate::cpu::CpuContext;
use crate::debugsymbol::{decode_pointers, pointers_from};
use crate::error::MissingField;
use crate::extract::{has_all, reports_first_missing};
use crate::handle::ForeignHandle;
use crate::nativepointer::NativePointer;
use crate::sys;
use crate::text::same_text;

verus! {

/// Status of a thread.
#[derive(Clone, Copy, Debug, PartialEq, Eq, Structural)]
pub enum ThreadState {
    Running,
    Stopped,
    Waiting,
    Uninterruptible,
    Halted,
}

/// The state that the host's word `s` stands for, if it is one of the five
/// words for a state.
pub open spec fn thread_state_named(s: Seq<char>) -> Option<ThreadState> {
    if s == "running"@ {
        Some(ThreadState::Running)
    } else if s == "stopped"@ {
        Some(ThreadState::Stopped)
    } else if s == "waiting"@ {
        Some(ThreadState::Waiting)
    } else if s == "uninterruptible"@ {
        Some(ThreadState::Uninterruptible)
    } else if s == "halted"@ {
        Some(ThreadState::Halted)
    } else {
        None
    }
}

/// The message for a word that names no thread state.
pub open spec fn invalid_state_message(s: Seq<char>) -> Seq<char> {
    "'"@ + s + "' is not a valid value for ThreadState"@
}

impl ThreadState {
    /// Reads a thread state from the host's word for it.
    pub fn from_str(s: &str) -> (r: Result<ThreadState, String>)
        ensures
            match r {
                Ok(state) => thread_state_named(s@) == Some(state),
                Err(message) => thread_state_named(s@) is None && message@
                    == invalid_state_message(s@),
            },
    {
        if same_text(s, "running") {
            Ok(ThreadState::Running)
        } else if same_text(s, "stopped") {
            Ok(ThreadState::Stopped)
        } else if same_text(s, "waiting") {
            Ok(ThreadState::Waiting)
        } else if same_text(s, "uninterruptible") {
            Ok(ThreadState::Uninterruptible)
        } else if same_text(s, "halted") {
            Ok(ThreadState::Halted)
        } else {
            let mut message = String::from_str("'");
            message.append(s);
            message.append("' is not a valid value for ThreadState");
            Err(message)
        }
    }

    /// The name of the state, for display.
    pub open spec fn spec_to_string(&self) -> Seq<char> {
        match self {
            ThreadState::Running => "Running"@,
            ThreadState::Stopped => "Stopped"@,
            ThreadState::Waiting => "Waiting"@,
            ThreadState::Uninterruptible => "Uninterruptible"@,
            ThreadState::Halted => "Halted"@,
        }
    }

    /// The name of the state, for display.
    pub fn to_string(&self) -> (text: String)
        ensures
            text@ == self.spec_to_string(),
    {
        match self {
            ThreadState::Running => String::from_str("Running"),
            ThreadState::Stopped => String::from_str("Stopped"),
            ThreadState::Waiting => String::from_str("Waiting"),
            ThreadState::Uninterruptible => String::from_str("Uninterruptible"),
            ThreadState::Halted => String::from_str("Halted"),
        }
    }
}

/// Why a raw thread could not be decoded.
#[derive(Clone, Debug, PartialEq, Eq)]
pub enum ThreadError {
    /// The host's word for the thread's state names no state; the message
    /// quotes the word.
    InvalidState(String),
    /// The thread's CPU context lacks a register of the layout.
    MissingField(MissingField),
}

/// Detailed information about a thread.
#[derive(Clone, Debug, PartialEq, Eq)]
pub struct ThreadDetails {
    pub id: u32,
    pub state: ThreadState,
    pub context: CpuContext,
}

/// Whether a raw thread can be decoded for the architecture called `arch`:
/// its state is a known word and its context has every register of the
/// layout.
pub open spec fn thread_decodable(m: sys::ThreadDetails, arch: Seq<char>) -> bool {
    &&& thread_state_named(m.state@) is Some
    &&& has_all(m.context.properties@, register_names(architecture_named(arch)))
}

/// Whether `t` is the decoding of the raw thread `m` for the architecture
/// called `arch`.
pub open spec fn thread_decodes_to(m: sys::ThreadDetails, arch: Seq<char>, t: ThreadDetails) -> bool {
    &&& t.id == m.id
    &&& thread_state_named(m.state@) == Some(t.state)
    &&& t.context.spec_architecture() == architecture_named(arch)
    &&& t.context.raw() == m.context
    &&& t.context.well_formed()
}

/// Whether `e` is the error that decoding the raw thread `m` gives for the
/// architecture called `arch`. A bad state is reported before a missing
/// register.
pub open spec fn thread_fails_with(m: sys::ThreadDetails, arch: Seq<char>, e: ThreadError) -> bool {
    match e {
        ThreadError::InvalidState(message) => {
            &&& thread_state_named(m.state@) is None
            &&& message@ == invalid_state_message(m.state@)
        },
        ThreadError::MissingField(missing) => {
            &&& thread_state_named(m.state@) is Some
            &&& reports_first_missing(missing, m.context.properties@, architecture_named(arch))
        },
    }
}

impl ThreadDetails {
    /// Decodes a raw thread, its context by the layout that the host's
    /// architecture identifier `arch` selects.
    pub fn from(m: sys::ThreadDetails, arch: &str) -> (r: Result<ThreadDetails, ThreadError>)
        ensures
            r is Ok <==> thread_decodable(m, arch@),
            r matches Ok(t) ==> thread_decodes_to(m, arch@, t),
            r matches Err(e) ==> thread_fails_with(m, arch@, e),
    {
        let state = match ThreadState::from_str(m.state.as_str()) {
            Ok(state) => state,
            Err(message) => {
                return Err(ThreadError::InvalidState(message));
            },
        };
        match CpuContext::from_sys(m.context, arch) {
            Ok(context) => Ok(ThreadDetails { id: m.id, state, context }),
            Err(missing) => Err(ThreadError::MissingField(missing)),
        }
    }
}

/// Supplied to a backtrace to set the accuracy of what is generated.
#[derive(Clone, Copy, Debug, PartialEq, Eq, Structural)]
pub enum Backtracer {
    ACCURATE,
    FUZZY,
}

/// What to hand to the host to have a backtrace generated.
#[derive(Clone, Debug, PartialEq, Eq)]
pub struct BacktraceRequest {
    /// The raw context to start from; none to start from where the current
    /// thread is.
    pub context: Option<sys::CpuContext>,
    pub backtracer: Backtracer,
}

/// The raw context behind an optional decoded context.
pub open spec fn raw_context_of(ctx: Option<CpuContext>) -> Option<sys::CpuContext> {
    match ctx {
        Some(c) => Some(c.raw()),
        None => None,
    }
}

/// Prepares the request for a backtrace. A decoded context is handed back
/// to the host as the raw context that it was decoded from.
pub fn backtrace_request(ctx: Option<CpuContext>, backtracer: Backtracer) -> (request:
    BacktraceRequest)
    ensures
        request.context == raw_context_of(ctx),
        request.backtracer == backtracer,
{
    let context = match ctx {
        Some(c) => Some(c.into_sys()),
        None => None,
    };
    BacktraceRequest { context, backtracer }
}

/// Decodes the host's reply to a backtrace request: the return addresses,
/// one for one and in order.
pub fn backtrace(reply: Vec<ForeignHandle>) -> (frames: Vec<NativePointer>)
    ensures
        frames@ =~= pointers_from(reply@),
{
    decode_pointers(reply)
}

} // verus!
