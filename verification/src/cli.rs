//! Validated command-line input.
//!
//! The surrounding binary parses flags into plain values and hands them in
//! here; `get_args` checks the rules that make a run meaningful at all: a
//! downstream command must be present, and at least one source of targets
//! (a TCP entry, a socket path, or a manifest file) must be given. The
//! timeout is a number of seconds, where zero means "no deadline".

use vstd::prelude::*;

use crate::errors::InputError;

verus! {

/// The validated command-line input of one run.
#[derive(Debug, Clone)]
pub struct CLIArgs {
    /// Time budget in seconds for every target; zero means unbounded.
    pub timeout: u64,
    /// The downstream command (program name, then its arguments).
    pub command: Vec<String>,
    /// Raw `host:port` entries, still to be split by the loader.
    pub tcp: Vec<String>,
    /// Socket paths.
    pub uds: Vec<String>,
    /// Manifest file paths; their entries are loaded by the caller and
    /// handed to the loader alongside these arguments.
    pub json: Vec<String>,
}

impl CLIArgs {
    /// A usable argument set: a command to hand off to, and at least one
    /// source of targets.
    pub open spec fn wf(&self) -> bool {
        self.command@.len() >= 1 && self.tcp@.len() + self.uds@.len() + self.json@.len() >= 1
    }
}

/// Validate the raw command-line values.
///
/// Fails when no downstream command was given, or when none of the three
/// target sources was given; otherwise returns the values unchanged.
pub fn get_args(
    timeout: u64,
    command: Vec<String>,
    tcp: Vec<String>,
    uds: Vec<String>,
    json: Vec<String>,
) -> (r: Result<CLIArgs, InputError>)
    ensures
        r is Ok <==> command@.len() >= 1 && tcp@.len() + uds@.len() + json@.len() >= 1,
        r matches Ok(a) ==> a.timeout == timeout && a.command == command && a.tcp == tcp
            && a.uds == uds && a.json == json && a.wf(),
        r matches Err(err) ==> {
            &&& command@.len() == 0 ==> err is EmptyCommand
            &&& command@.len() >= 1 ==> err is NoTargets
        },
{
    if command.len() == 0 {
        Err(InputError::EmptyCommand)
    } else if tcp.len() == 0 && uds.len() == 0 && json.len() == 0 {
        Err(InputError::NoTargets)
    } else {
        Ok(CLIArgs { timeout, command, tcp, uds, json })
    }
}

} // verus!
