//! The process launcher's deciding half.
//!
//! Launching is fire-and-forget: the command is handed to the system's
//! command interpreter as a detached child and never awaited. The spawn
//! itself is an operating-system call and happens outside the library;
//! what is decided here is the exact invocation — which interpreter, and
//! that the command text is passed to it verbatim, unescaped. Whoever
//! supplies the command is trusted; that is a deliberate boundary.

use vstd::prelude::*;

verus! {

/// What the launcher reported for one spawn attempt: the live child's
/// process identifier, or refusal by the operating system.
#[derive(Clone, Copy, PartialEq, Eq, Structural, Debug)]
pub enum LaunchResult {
    Spawned { pid: u32 },
    Failed,
}

/// The argument vector a launch of `command` hands to the operating
/// system: the system shell, its command flag, and the command text
/// verbatim — no escaping, no rewriting.
pub fn shell_invocation(command: String) -> (v: Vec<String>)
    ensures
        v@.len() == 3,
        v@[0]@ == "/bin/sh"@,
        v@[1]@ == "-c"@,
        v@[2]@ == command@,
{
    let mut v: Vec<String> = Vec::new();
    v.push("/bin/sh".to_owned());
    v.push("-c".to_owned());
    v.push(command);
    v
}

} // verus!
