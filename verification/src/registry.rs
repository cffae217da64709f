//! The command registry: which command, if any, each gesture is bound to.
//!
//! Two slots exist for the life of the process, one per gesture. Each is
//! written at most once, during startup, before the shell's run loop can
//! deliver a gesture; afterwards the registry is read-only, so handler
//! invocations can read it concurrently without observing a partial write.

use vstd::prelude::*;

verus! {

/// A discrete pointer input on the indicator: the primary (left-click)
/// gesture or the secondary (right-click / context) gesture.
#[derive(Clone, Copy, PartialEq, Eq, Structural, Debug)]
pub enum Gesture {
    Primary,
    Secondary,
}

/// Mathematical model of the registry: the command bound to each gesture,
/// as a sequence of characters.
pub struct RegistryModel {
    pub primary: Option<Seq<char>>,
    pub secondary: Option<Seq<char>>,
}

impl RegistryModel {
    /// The command bound to gesture `g`.
    pub open spec fn cmd(self, g: Gesture) -> Option<Seq<char>> {
        match g {
            Gesture::Primary => self.primary,
            Gesture::Secondary => self.secondary,
        }
    }

    /// The model after binding `c` to gesture `g`.
    pub open spec fn set_cmd(self, g: Gesture, c: Seq<char>) -> RegistryModel {
        match g {
            Gesture::Primary => RegistryModel { primary: Some(c), ..self },
            Gesture::Secondary => RegistryModel { secondary: Some(c), ..self },
        }
    }

    /// Whether any gesture has a command bound at all.
    pub open spec fn any_bound(self) -> bool {
        self.primary is Some || self.secondary is Some
    }

    /// A registry with no command bound.
    pub open spec fn empty() -> RegistryModel {
        RegistryModel { primary: None, secondary: None }
    }
}

/// Process-wide holder of the gesture commands. Written once per gesture at
/// startup, then read by any number of handler invocations.
pub struct CommandRegistry {
    primary: Option<String>,
    secondary: Option<String>,
}

/// The view of one optional command string.
pub open spec fn slot_view(slot: Option<String>) -> Option<Seq<char>> {
    match slot {
        Some(s) => Some(s@),
        None => None,
    }
}

impl View for CommandRegistry {
    type V = RegistryModel;

    closed spec fn view(&self) -> RegistryModel {
        RegistryModel {
            primary: slot_view(self.primary),
            secondary: slot_view(self.secondary),
        }
    }
}

impl CommandRegistry {
    /// A registry with no command bound to either gesture.
    pub fn new() -> (r: CommandRegistry)
        ensures
            r@ == RegistryModel::empty(),
    {
        CommandRegistry { primary: None, secondary: None }
    }

    /// Binds `command` to gesture `g`. Startup-only: each gesture may be
    /// written at most once, and only before the run loop starts; the
    /// other gesture's slot is untouched.
    pub fn set(&mut self, g: Gesture, command: String)
        requires
            old(self)@.cmd(g) is None,
        ensures
            final(self)@ == old(self)@.set_cmd(g, command@),
    {
        match g {
            Gesture::Primary => {
                self.primary = Some(command);
            },
            Gesture::Secondary => {
                self.secondary = Some(command);
            },
        }
    }

    /// Returns an independent handle to the command bound to `g`: a copy
    /// the caller may keep without being able to disturb the registry.
    pub fn get(&self, g: Gesture) -> (r: Option<String>)
        ensures
            match r {
                Some(c) => self@.cmd(g) == Some(c@),
                None => self@.cmd(g) is None,
            },
    {
        match g {
            Gesture::Primary => {
                match &self.primary {
                    Some(c) => Some(c.clone()),
                    None => None,
                }
            },
            Gesture::Secondary => {
                match &self.secondary {
                    Some(c) => Some(c.clone()),
                    None => None,
                }
            },
        }
    }
}

/// Law: a write to one gesture's slot is visible to every later read of
/// that gesture and leaves the other gesture's slot untouched
/// (read-after-write consistency under one writer, then many readers).
pub proof fn lemma_read_after_write(m: RegistryModel, g: Gesture, c: Seq<char>)
    ensures
        m.set_cmd(g, c).cmd(g) == Some(c),
        forall|h: Gesture| h != g ==> #[trigger] m.set_cmd(g, c).cmd(h) == m.cmd(h),
{
}

} // verus!
