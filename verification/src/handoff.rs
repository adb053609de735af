//! Splitting the downstream command line for the handoff.
//!
//! After a fully successful run, control passes to the caller-supplied
//! command. The platform side of that transfer (replacing the process
//! image, or spawning and waiting) is the caller's; what is decided here is
//! how the validated command line splits into the program to run and its
//! arguments, and which exit status a failed run reports.

use vstd::prelude::*;

verus! {

/// The downstream command, split into the program and its arguments.
#[derive(Debug)]
pub struct HandoffPlan {
    pub program: String,
    pub args: Vec<String>,
}

/// Split the downstream command line: its first word is the program, the
/// rest are the arguments, unchanged and in order. The command is known to
/// be non-empty: input validation rejects an empty one before any probing.
pub fn handoff_plan(command: Vec<String>) -> (r: HandoffPlan)
    requires
        command@.len() >= 1,
    ensures
        r.program == command@[0],
        r.args@ == command@.skip(1),
{
    let mut args = command;
    let ghost orig = args@;
    let program = args.remove(0);
    proof {
        assert(args@ =~= orig.skip(1));
    }
    HandoffPlan { program, args }
}

/// The sentinel status a failing run exits with: non-zero, so that callers
/// never mistake a failed run for a successful handoff.
pub fn failure_exit_code() -> (r: i32)
    ensures
        r == -1,
{
    -1
}

} // verus!
