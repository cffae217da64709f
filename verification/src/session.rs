//! The life of the indicator, from first write to steady state.
//!
//! A session moves through the startup protocol in one direction:
//! registry writes happen first, then the wiring is decided and installed,
//! then the run loop starts. Only a running session handles gestures, and
//! a running session's registry can no longer change — which is what makes
//! the registry safe to read from any number of handler invocations.

use vstd::prelude::*;

use crate::handler::{on_gesture, spec_action, ActionModel, HandlerAction};
use crate::indicator::{
    plan_wiring, resolve_install, spec_resolve_install, spec_wiring, Wiring, WiringPlan,
};
use crate::registry::{CommandRegistry, Gesture, RegistryModel};

verus! {

/// Where a session stands in the startup protocol.
#[derive(Clone, Copy, PartialEq, Eq, Structural, Debug)]
pub enum Phase {
    /// Registry writes are still allowed; nothing is wired.
    Uninitialized,
    /// The wiring is installed; the run loop has not started.
    Bound { wiring: Wiring },
    /// The run loop runs: gestures arrive, the registry is read-only.
    Running { wiring: Wiring },
}

/// Model of a session: its registry and its place in the protocol.
pub struct SessionModel {
    pub registry: RegistryModel,
    pub phase: Phase,
}

impl SessionModel {
    /// A fresh session: empty registry, nothing wired.
    pub open spec fn init() -> SessionModel {
        SessionModel { registry: RegistryModel::empty(), phase: Phase::Uninitialized }
    }

    /// The session after a registry write.
    pub open spec fn configure(self, g: Gesture, c: Seq<char>) -> SessionModel {
        SessionModel { registry: self.registry.set_cmd(g, c), ..self }
    }

    /// The session after the wiring was decided and its installation ran
    /// with outcome `install_ok`.
    pub open spec fn bind(self, install_ok: bool) -> SessionModel {
        SessionModel {
            phase: Phase::Bound {
                wiring: spec_resolve_install(spec_wiring(self.registry), install_ok),
            },
            ..self
        }
    }

    /// The session after the run loop started. The registry is exactly
    /// what it was when the wiring was bound.
    pub open spec fn start(self) -> SessionModel {
        match self.phase {
            Phase::Bound { wiring } => SessionModel {
                phase: Phase::Running { wiring },
                ..self
            },
            _ => self,
        }
    }
}

/// One run of the indicator: the registry plus where the startup protocol
/// stands.
pub struct TraySession {
    registry: CommandRegistry,
    phase: Phase,
}

impl View for TraySession {
    type V = SessionModel;

    closed spec fn view(&self) -> SessionModel {
        SessionModel { registry: self.registry@, phase: self.phase }
    }
}

impl TraySession {
    /// A fresh session: no command bound, nothing wired.
    pub fn new() -> (s: TraySession)
        ensures
            s@ == SessionModel::init(),
    {
        TraySession { registry: CommandRegistry::new(), phase: Phase::Uninitialized }
    }

    /// Binds `command` to gesture `g`. Allowed only before any wiring
    /// exists, and at most once per gesture.
    pub fn configure(&mut self, g: Gesture, command: String)
        requires
            old(self)@.phase == Phase::Uninitialized,
            old(self)@.registry.cmd(g) is None,
        ensures
            final(self)@ == old(self)@.configure(g, command@),
    {
        self.registry.set(g, command);
    }

    /// The wiring owed for the current registry: handlers exactly when
    /// some command is bound, the quit menu otherwise.
    pub fn wiring_plan(&self) -> (w: WiringPlan)
        ensures
            w == spec_wiring(self@.registry),
    {
        plan_wiring(&self.registry)
    }

    /// Records the outcome of installing the wiring plan. A handlers plan
    /// whose installation failed degrades to the menu. Ends the write
    /// phase: from here on the registry is read-only.
    pub fn bind(&mut self, install_ok: bool)
        requires
            old(self)@.phase == Phase::Uninitialized,
        ensures
            final(self)@ == old(self)@.bind(install_ok),
    {
        let plan = plan_wiring(&self.registry);
        let wiring = resolve_install(plan, install_ok);
        self.phase = Phase::Bound { wiring };
    }

    /// Marks the run loop as started. The registry is untouched: every
    /// write made before this point stays visible to every handler
    /// invocation after it.
    pub fn start(&mut self)
        requires
            old(self)@.phase is Bound,
        ensures
            final(self)@ == old(self)@.start(),
    {
        match self.phase {
            Phase::Bound { wiring } => {
                self.phase = Phase::Running { wiring };
            },
            _ => {},
        }
    }

    /// Where the session stands in the startup protocol.
    pub fn phase(&self) -> (p: Phase)
        ensures
            p == self@.phase,
    {
        self.phase
    }

    /// Whether the run loop has started and gestures may be handled.
    pub fn is_running(&self) -> (r: bool)
        ensures
            r == (self@.phase is Running),
    {
        match self.phase {
            Phase::Running { .. } => true,
            _ => false,
        }
    }

    /// Handles one gesture: decides on exactly one launch of the bound
    /// command, or on nothing when the gesture has no command. Takes the
    /// session by shared reference, so no invocation can disturb the
    /// registry or the phase for later invocations.
    pub fn on_gesture(&self, g: Gesture) -> (a: HandlerAction)
        requires
            self@.phase is Running,
        ensures
            a@ == spec_action(self@.registry, g),
    {
        on_gesture(&self.registry, g)
    }
}

/// Law: a registry write made before the run loop starts is visible to
/// every handler invocation made after it starts. Whatever the install
/// outcome, binding and starting leave the registry as the write left it,
/// and the handler for that gesture then decides on exactly that command.
pub proof fn lemma_write_before_start_visible(
    s: SessionModel,
    g: Gesture,
    c: Seq<char>,
    install_ok: bool,
)
    requires
        s.phase == Phase::Uninitialized,
    ensures
        ({
            let after = s.configure(g, c).bind(install_ok).start();
            &&& after.phase is Running
            &&& after.registry == s.registry.set_cmd(g, c)
            &&& spec_action(after.registry, g) == ActionModel::Spawn(c)
        }),
{
}

} // verus!
