//! The targets a run waits for.
//!
//! A target is one endpoint whose reachability must be confirmed before the
//! downstream command is started: either a TCP endpoint given as a host (a
//! literal IP address or a DNS name) and a port, or a filesystem path to a
//! local socket. Targets are immutable once constructed; every target that
//! the loader hands out is well formed (non-empty host or path).

use vstd::prelude::*;

verus! {

/// A TCP endpoint: a host (literal IP address or DNS name) and a port.
#[derive(Debug, Clone)]
pub struct TcpTarget {
    pub host: String,
    pub port: u16,
}

/// A local socket endpoint, given as a filesystem path.
#[derive(Debug, Clone)]
pub struct SocketTarget {
    pub path: String,
}

/// One endpoint the supervisor must confirm is reachable.
#[derive(Debug, Clone)]
pub enum Target {
    Tcp(TcpTarget),
    Uds(SocketTarget),
}

impl TcpTarget {
    /// A TCP target is well formed when its host is non-empty.
    pub open spec fn wf(&self) -> bool {
        self.host@.len() > 0
    }
}

impl SocketTarget {
    /// A socket target is well formed when its path is non-empty.
    pub open spec fn wf(&self) -> bool {
        self.path@.len() > 0
    }
}

impl Target {
    pub open spec fn wf(&self) -> bool {
        match self {
            Target::Tcp(t) => t.wf(),
            Target::Uds(s) => s.wf(),
        }
    }
}

} // verus!
