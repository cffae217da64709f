//! The event handlers: the lookup-and-launch step behind each gesture.
//!
//! The shell invokes one entry point per gesture. An invocation looks its
//! gesture up in the registry and decides on at most one launch; the
//! outcome of that launch, whatever it is, is absorbed into a diagnostic
//! event rather than propagated. The functions here are the deciding half
//! of that path: they take plain values and return plain values, so the
//! glue that actually spawns a process and prints the diagnostics stays
//! outside the library.

use vstd::prelude::*;

use crate::launcher::LaunchResult;
use crate::registry::{CommandRegistry, Gesture, RegistryModel};

verus! {

/// What one handler invocation decides to do: launch one command, or
/// nothing at all.
#[derive(Debug, Clone, PartialEq, Eq)]
pub enum HandlerAction {
    /// Launch `command` through the system shell, exactly once.
    Spawn { command: String },
    /// The gesture has no command bound: a silent no-op.
    NoOp,
}

/// Model of a handler action, over character sequences.
pub enum ActionModel {
    Spawn(Seq<char>),
    NoOp,
}

impl View for HandlerAction {
    type V = ActionModel;

    open spec fn view(&self) -> ActionModel {
        match self {
            HandlerAction::Spawn { command } => ActionModel::Spawn(command@),
            HandlerAction::NoOp => ActionModel::NoOp,
        }
    }
}

/// The action a handler invocation takes on registry state `m` for
/// gesture `g`: one launch of the bound command, or nothing.
pub open spec fn spec_action(m: RegistryModel, g: Gesture) -> ActionModel {
    match m.cmd(g) {
        Some(c) => ActionModel::Spawn(c),
        None => ActionModel::NoOp,
    }
}

/// One diagnostic line's worth of information about a handler invocation.
#[derive(Debug, Clone, PartialEq, Eq)]
pub enum LogEvent {
    /// The command was launched; `pid` identifies the detached child.
    Launched { gesture: Gesture, command: String, pid: u32 },
    /// The launcher could not start the command; the attempted command
    /// text is kept for the diagnostic.
    LaunchFailed { gesture: Gesture, command: String },
    /// A runtime fault was caught at the handler boundary.
    HandlerFault { gesture: Gesture },
}

/// Model of a diagnostic event, over character sequences.
pub enum LogModel {
    Launched { gesture: Gesture, command: Seq<char>, pid: u32 },
    LaunchFailed { gesture: Gesture, command: Seq<char> },
    HandlerFault { gesture: Gesture },
}

impl View for LogEvent {
    type V = LogModel;

    open spec fn view(&self) -> LogModel {
        match self {
            LogEvent::Launched { gesture, command, pid } => LogModel::Launched {
                gesture: *gesture,
                command: command@,
                pid: *pid,
            },
            LogEvent::LaunchFailed { gesture, command } => LogModel::LaunchFailed {
                gesture: *gesture,
                command: command@,
            },
            LogEvent::HandlerFault { gesture } => LogModel::HandlerFault { gesture: *gesture },
        }
    }
}

/// The diagnostic event owed for a launch of `c` that ended in `r`.
pub open spec fn spec_launch_event(g: Gesture, c: Seq<char>, r: LaunchResult) -> LogModel {
    match r {
        LaunchResult::Spawned { pid } => LogModel::Launched { gesture: g, command: c, pid },
        LaunchResult::Failed => LogModel::LaunchFailed { gesture: g, command: c },
    }
}

/// Decides what a handler invocation for gesture `g` does: launch the
/// bound command exactly once, or nothing when none is bound. Reads the
/// registry through a shared reference, so an invocation can never
/// disturb registry state.
pub fn on_gesture(reg: &CommandRegistry, g: Gesture) -> (a: HandlerAction)
    ensures
        a@ == spec_action(reg@, g),
{
    match reg.get(g) {
        Some(command) => HandlerAction::Spawn { command },
        None => HandlerAction::NoOp,
    }
}

/// Absorbs the launcher's report for one spawn attempt of `command` into
/// the diagnostic event owed for it. Defined for every possible report:
/// success and refusal both end here, in a log line and nothing more.
pub fn report_launch(g: Gesture, command: String, result: LaunchResult) -> (e: LogEvent)
    ensures
        e@ == spec_launch_event(g, command@, result),
{
    match result {
        LaunchResult::Spawned { pid } => LogEvent::Launched { gesture: g, command, pid },
        LaunchResult::Failed => LogEvent::LaunchFailed { gesture: g, command },
    }
}

/// The diagnostic event for a runtime fault caught at the boundary of
/// gesture `g`'s handler: the fault becomes this event and the invocation
/// completes normally.
pub fn fault_event(g: Gesture) -> (e: LogEvent)
    ensures
        e@ == (LogModel::HandlerFault { gesture: g }),
{
    LogEvent::HandlerFault { gesture: g }
}

/// Law: a gesture with a command bound decides on exactly one launch,
/// and that launch carries exactly the bound command text.
pub proof fn lemma_configured_gesture_spawns_exactly(m: RegistryModel, g: Gesture, c: Seq<char>)
    requires
        m.cmd(g) == Some(c),
    ensures
        spec_action(m, g) == ActionModel::Spawn(c),
{
}

/// Law: a gesture with no command bound decides on no launch at all.
pub proof fn lemma_unconfigured_gesture_no_spawn(m: RegistryModel, g: Gesture)
    requires
        m.cmd(g) is None,
    ensures
        spec_action(m, g) == ActionModel::NoOp,
{
}

} // verus!
