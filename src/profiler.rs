//! The profiling session: installing the composed subscriber as the
//! process-wide default and keeping the trace file's flush guard alive.

use vstd::prelude::*;
use vstd::string::StringExecFns;

use crate::layers::Capabilities;

verus! {

/// tracing's handle to a composed subscriber, carried through unopened.
#[verifier::external_type_specification]
#[verifier::external_body]
pub struct ExDispatch(tracing::Dispatch);

/// The error of a refused global install, only told apart from success.
#[verifier::external_type_specification]
#[verifier::external_body]
pub struct ExSetGlobalDefaultError(tracing::dispatcher::SetGlobalDefaultError);

/// tracing-chrome's guard that flushes the trace file when dropped; it is
/// only held.
#[verifier::external_type_specification]
#[verifier::external_body]
pub struct ExFlushGuard(tracing_chrome::FlushGuard);

/// Relies on tracing::dispatcher::set_global_default: it installs the
/// dispatcher as the process-wide default unless one was installed before,
/// and then returns `Err`. Which of the two happens depends on the process,
/// so nothing is stated of the result.
pub assume_specification[ tracing::dispatcher::set_global_default ](
    dispatcher: tracing::Dispatch,
) -> Result<(), tracing::dispatcher::SetGlobalDefaultError>;

/// Why a session could not start.
#[derive(Clone, Copy, Debug, PartialEq, Eq, Structural)]
pub enum InitError {
    /// The process already has a global default subscriber.
    AlreadyInstalled,
}

impl InitError {
    /// The message under which the failure is reported.
    pub fn message(&self) -> (r: &'static str)
        ensures
            r@ == "Tracer could not set the global default subscriber."@,
    {
        "Tracer could not set the global default subscriber."
    }
}

/// A running profiling session. Dropping it flushes and closes the trace
/// file, if there is one, so it is kept for as long as tracing should go on.
pub struct Profiler {
    capabilities: Capabilities,
    flush_guard: Option<tracing_chrome::FlushGuard>,
}

/// How a boolean is shown in a description.
pub open spec fn bool_text(b: bool) -> Seq<char> {
    if b { "true"@ } else { "false"@ }
}

/// The one-line description of a session with capabilities `c`.
pub open spec fn description_of(c: Capabilities) -> Seq<char> {
    "Profiler ---- Chrome? "@ + bool_text(c.trace_file) + ", Tracy "@ + bool_text(c.realtime)
}

fn bool_str(b: bool) -> (r: &'static str)
    ensures
        r@ == bool_text(b),
{
    if b {
        "true"
    } else {
        "false"
    }
}

impl Profiler {
    /// The capabilities the session was started with.
    pub closed spec fn capabilities(&self) -> Capabilities {
        self.capabilities
    }

    /// Whether the session keeps a trace file's flush guard.
    pub closed spec fn holds_flush_guard(&self) -> bool {
        self.flush_guard is Some
    }

    /// Installs `dispatch`, the composed subscriber, as the process-wide
    /// default and starts a session that keeps `flush_guard`. Only the first
    /// install in a process succeeds; a later one yields
    /// `InitError::AlreadyInstalled`.
    pub fn init(
        capabilities: Capabilities,
        dispatch: tracing::Dispatch,
        flush_guard: Option<tracing_chrome::FlushGuard>,
    ) -> (r: Result<Profiler, InitError>)
        ensures
            match r {
                Ok(p) => p.capabilities() == capabilities && p.holds_flush_guard() == (flush_guard is Some),
                Err(e) => e == InitError::AlreadyInstalled,
            },
    {
        let outcome = tracing::dispatcher::set_global_default(dispatch);
        Profiler::after_install(outcome, capabilities, flush_guard)
    }

    /// The session that follows an install with the given outcome: one that
    /// keeps `flush_guard` if the install succeeded, else the error.
    pub fn after_install(
        outcome: Result<(), tracing::dispatcher::SetGlobalDefaultError>,
        capabilities: Capabilities,
        flush_guard: Option<tracing_chrome::FlushGuard>,
    ) -> (r: Result<Profiler, InitError>)
        ensures
            r is Ok <==> outcome is Ok,
            match r {
                Ok(p) => p.capabilities() == capabilities && p.holds_flush_guard() == (flush_guard is Some),
                Err(e) => e == InitError::AlreadyInstalled,
            },
    {
        match outcome {
            Ok(()) => Ok(Profiler { capabilities, flush_guard }),
            Err(_) => Err(InitError::AlreadyInstalled),
        }
    }

    /// A one-line description: which of the optional sinks are on.
    pub fn describe(&self) -> (r: String)
        ensures
            r@ == description_of(self.capabilities()),
    {
        let mut r = String::from_str("Profiler ---- Chrome? ");
        r.append(bool_str(self.capabilities.trace_file));
        r.append(", Tracy ");
        r.append(bool_str(self.capabilities.realtime));
        r
    }
}

} // verus!
