//! The polling state machine of one probe.
//!
//! Each target gets exactly one probe task. The task's life is `Pending ->
//! Polling -> {Ready | Failed}`: while polling it cycles through resolving
//! (TCP targets only), trying each candidate address in order, and sleeping
//! one fixed interval before the next cycle. The machine here makes every
//! decision; the caller only performs the suspending work an action asks
//! for (a lookup, a connection attempt, a sleep) and feeds the result back
//! as an event.
//!
//! The only way a probe can fail is budget expiry: resolution errors and
//! refused connections are always retried after the polling interval. A
//! zero budget therefore means the probe polls indefinitely, and
//! `lemma_unbounded_probe_never_fails` proves that no event history can end
//! such a probe in failure.

use vstd::prelude::*;

use crate::resolver::ResolvedAddr;
use crate::target::Target;

verus! {

/// Fixed delay, in milliseconds, between two polling cycles of one probe.
pub const POLL_INTERVAL_MS: u64 = 500;

/// The time allotted to every target of a run, in seconds; zero means no
/// deadline at all.
#[derive(Debug, Clone, Copy, PartialEq, Eq, Structural)]
pub struct TimeBudget {
    pub secs: u64,
}

impl TimeBudget {
    /// A zero budget never expires.
    pub open spec fn is_unbounded(&self) -> bool {
        self.secs == 0
    }
}

/// Why a probe failed. Budget expiry is the only terminal failure; the
/// reason identifies the endpoint for diagnostics.
#[derive(Debug, Clone, PartialEq)]
pub enum FailReason {
    TcpTimeout { host: String, port: u16 },
    UdsTimeout { path: String },
}

/// The result of one target's probe, produced exactly once per target.
#[derive(Debug, Clone, PartialEq)]
pub enum ProbeOutcome {
    Ready,
    Failed(FailReason),
}

/// Where a probe stands within its polling cycle.
#[derive(Debug)]
pub enum ProbeState {
    /// A TCP probe waiting for this cycle's (fresh) resolution.
    Resolving,
    /// A TCP probe trying this cycle's candidate addresses in order;
    /// `addrs` is exactly the latest resolution answer combined with the
    /// target's port, `next` the index about to be tried.
    Connecting { addrs: Vec<ResolvedAddr>, next: usize },
    /// A socket probe about to try its path.
    Attempting,
    /// Waiting out the polling interval before the next cycle.
    Sleeping,
    /// Terminal: no transition leaves this state.
    Done { outcome: ProbeOutcome },
}

/// What the caller reports back to the machine.
pub enum ProbeEvent {
    /// This cycle's fresh candidate addresses (possibly empty): the
    /// literal address or the DNS answer, combined with the target's port
    /// (`resolver::addrs_from_ips`).
    Resolved { addrs: Vec<ResolvedAddr> },
    /// The lookup itself errored; retried next cycle.
    ResolveFailed,
    ConnectOk,
    ConnectFailed,
    SleepFinished,
    /// The run's non-zero budget elapsed.
    BudgetExpired,
}

/// The suspending work the caller must perform next.
#[derive(Debug, Clone, Copy, PartialEq, Eq, Structural)]
pub enum ProbeAction {
    /// Freshly resolve the target's host (literal fast path or DNS).
    Resolve,
    /// Try one transport connection to this address.
    TryConnect { addr: ResolvedAddr },
    /// Try one connection to the target's socket path.
    TryPath,
    /// Sleep one polling interval.
    Sleep,
}

/// Where a probe of `t` starts: TCP targets resolve first, socket targets
/// connect directly.
pub open spec fn init_state(t: Target) -> ProbeState {
    match t {
        Target::Tcp(_) => ProbeState::Resolving,
        Target::Uds(_) => ProbeState::Attempting,
    }
}

/// The diagnostic a budget expiry leaves behind: the target's endpoint.
pub open spec fn timeout_reason(t: Target) -> FailReason {
    match t {
        Target::Tcp(tt) => FailReason::TcpTimeout { host: tt.host, port: tt.port },
        Target::Uds(s) => FailReason::UdsTimeout { path: s.path },
    }
}

/// A state that fits its target: resolution states belong to TCP targets,
/// the path attempt to socket targets, and a connecting probe always has a
/// candidate left to try.
pub open spec fn state_wf(t: Target, s: ProbeState) -> bool {
    match s {
        ProbeState::Resolving => t is Tcp,
        ProbeState::Connecting { addrs, next } => t is Tcp && next < addrs@.len(),
        ProbeState::Attempting => t is Uds,
        ProbeState::Sleeping => true,
        ProbeState::Done { .. } => true,
    }
}

/// The transition relation of one probe, as a function: given the target,
/// the budget, the current state and an event, the next state.
///
/// `Done` is terminal. `BudgetExpired` fails the probe only when the budget
/// is bounded; with a zero budget it changes nothing. A resolution answer
/// starts a connection pass over exactly that answer (an empty answer is a
/// resolution failure: sleep, then retry). A refused connection moves to
/// the next candidate, or to the sleep when none is left. An event that
/// does not fit the state changes nothing.
pub open spec fn spec_step(t: Target, b: TimeBudget, s: ProbeState, e: ProbeEvent) -> ProbeState {
    match (s, e) {
        (ProbeState::Done { outcome }, _) => ProbeState::Done { outcome },
        (s2, ProbeEvent::BudgetExpired) => if b.is_unbounded() {
            s2
        } else {
            ProbeState::Done { outcome: ProbeOutcome::Failed(timeout_reason(t)) }
        },
        (ProbeState::Resolving, ProbeEvent::Resolved { addrs }) => if addrs@.len() == 0 {
            ProbeState::Sleeping
        } else {
            ProbeState::Connecting { addrs, next: 0 }
        },
        (ProbeState::Resolving, ProbeEvent::ResolveFailed) => ProbeState::Sleeping,
        (ProbeState::Connecting { .. }, ProbeEvent::ConnectOk) => ProbeState::Done {
            outcome: ProbeOutcome::Ready,
        },
        (ProbeState::Connecting { addrs, next }, ProbeEvent::ConnectFailed) => if next + 1
            < addrs@.len() {
            ProbeState::Connecting { addrs, next: (next + 1) as usize }
        } else {
            ProbeState::Sleeping
        },
        (ProbeState::Attempting, ProbeEvent::ConnectOk) => ProbeState::Done {
            outcome: ProbeOutcome::Ready,
        },
        (ProbeState::Attempting, ProbeEvent::ConnectFailed) => ProbeState::Sleeping,
        (ProbeState::Sleeping, ProbeEvent::SleepFinished) => init_state(t),
        (s2, _) => s2,
    }
}

/// The action a (non-terminal) state awaits.
pub open spec fn spec_action(t: Target, s: ProbeState) -> ProbeAction
    recommends
        state_wf(t, s),
        !(s is Done),
{
    match s {
        ProbeState::Resolving => ProbeAction::Resolve,
        ProbeState::Connecting { addrs, next } => ProbeAction::TryConnect {
            addr: addrs@[next as int],
        },
        ProbeState::Attempting => ProbeAction::TryPath,
        ProbeState::Sleeping => ProbeAction::Sleep,
        ProbeState::Done { .. } => ProbeAction::Sleep,
    }
}

/// The probe ended in failure.
pub open spec fn spec_failed(s: ProbeState) -> bool {
    s matches ProbeState::Done { outcome } && outcome is Failed
}

/// One target's probe task: the immutable target and budget, and the
/// polling state.
#[derive(Debug)]
pub struct ProbeTask {
    pub target: Target,
    pub budget: TimeBudget,
    pub state: ProbeState,
}

/// The target's endpoint, for building the timeout diagnostic.
fn timeout_reason_exec(t: &Target) -> (r: FailReason)
    ensures
        r == timeout_reason(*t),
{
    match t {
        Target::Tcp(tt) => FailReason::TcpTimeout { host: tt.host.clone(), port: tt.port },
        Target::Uds(s) => FailReason::UdsTimeout { path: s.path.clone() },
    }
}

impl ProbeTask {
    pub open spec fn wf(&self) -> bool {
        state_wf(self.target, self.state)
    }

    /// A fresh probe for one target, sharing the run's budget.
    pub fn new(target: Target, budget: TimeBudget) -> (r: ProbeTask)
        ensures
            r.target == target,
            r.budget == budget,
            r.state == init_state(target),
            r.wf(),
    {
        let state = match &target {
            Target::Tcp(_) => ProbeState::Resolving,
            Target::Uds(_) => ProbeState::Attempting,
        };
        ProbeTask { target, budget, state }
    }

    /// Advance the machine by one event; target and budget never change.
    pub fn step(self, event: ProbeEvent) -> (r: ProbeTask)
        requires
            self.wf(),
        ensures
            r.wf(),
            r.target == self.target,
            r.budget == self.budget,
            r.state == spec_step(self.target, self.budget, self.state, event),
    {
        let ProbeTask { target, budget, state } = self;
        let new_state = match (state, event) {
            (ProbeState::Done { outcome }, _) => ProbeState::Done { outcome },
            (s2, ProbeEvent::BudgetExpired) => {
                if budget.secs == 0 {
                    s2
                } else {
                    ProbeState::Done {
                        outcome: ProbeOutcome::Failed(timeout_reason_exec(&target)),
                    }
                }
            },
            (ProbeState::Resolving, ProbeEvent::Resolved { addrs }) => {
                if addrs.len() == 0 {
                    ProbeState::Sleeping
                } else {
                    ProbeState::Connecting { addrs, next: 0 }
                }
            },
            (ProbeState::Resolving, ProbeEvent::ResolveFailed) => ProbeState::Sleeping,
            (ProbeState::Connecting { .. }, ProbeEvent::ConnectOk) => ProbeState::Done {
                outcome: ProbeOutcome::Ready,
            },
            (ProbeState::Connecting { addrs, next }, ProbeEvent::ConnectFailed) => {
                proof {
                    assert(state_wf(self.target, self.state));
                    assert(next < addrs@.len());
                }
                let len = addrs.len();
                if next < len - 1 {
                    ProbeState::Connecting { addrs, next: next + 1 }
                } else {
                    ProbeState::Sleeping
                }
            },
            (ProbeState::Attempting, ProbeEvent::ConnectOk) => ProbeState::Done {
                outcome: ProbeOutcome::Ready,
            },
            (ProbeState::Attempting, ProbeEvent::ConnectFailed) => ProbeState::Sleeping,
            (ProbeState::Sleeping, ProbeEvent::SleepFinished) => {
                match &target {
                    Target::Tcp(_) => ProbeState::Resolving,
                    Target::Uds(_) => ProbeState::Attempting,
                }
            },
            (s2, _) => s2,
        };
        ProbeTask { target, budget, state: new_state }
    }

    /// The suspending work the caller must perform next.
    pub fn next_action(&self) -> (r: ProbeAction)
        requires
            self.wf(),
            !(self.state is Done),
        ensures
            r == spec_action(self.target, self.state),
    {
        match &self.state {
            ProbeState::Resolving => ProbeAction::Resolve,
            ProbeState::Connecting { addrs, next } => ProbeAction::TryConnect {
                addr: addrs[*next],
            },
            ProbeState::Attempting => ProbeAction::TryPath,
            ProbeState::Sleeping => ProbeAction::Sleep,
            ProbeState::Done { .. } => ProbeAction::Sleep,
        }
    }

    /// Whether the probe reached a terminal state.
    pub fn is_done(&self) -> (r: bool)
        ensures
            r == (self.state is Done),
    {
        match &self.state {
            ProbeState::Done { .. } => true,
            _ => false,
        }
    }

    /// The probe's outcome, once it is done.
    pub fn take_outcome(self) -> (r: Option<ProbeOutcome>)
        ensures
            match self.state {
                ProbeState::Done { outcome } => r == Some(outcome),
                _ => r is None,
            },
    {
        match self.state {
            ProbeState::Done { outcome } => Some(outcome),
            _ => None,
        }
    }
}

/// The state after a whole history of events, starting from `s`.
pub open spec fn spec_run(
    t: Target,
    b: TimeBudget,
    s: ProbeState,
    events: Seq<ProbeEvent>,
) -> ProbeState
    decreases events.len(),
{
    if events.len() == 0 {
        s
    } else {
        spec_run(t, b, spec_step(t, b, s, events.first()), events.drop_first())
    }
}

/// A terminal state never changes, whatever else happens.
pub proof fn lemma_done_is_terminal(t: Target, b: TimeBudget, s: ProbeState, e: ProbeEvent)
    requires
        s is Done,
    ensures
        spec_step(t, b, s, e) == s,
{
}

/// With a bounded budget, expiry ends a still-running probe in failure,
/// and the reason names the target's endpoint.
pub proof fn lemma_budget_expiry_fails(t: Target, b: TimeBudget, s: ProbeState)
    requires
        !b.is_unbounded(),
        !(s is Done),
    ensures
        spec_step(t, b, s, ProbeEvent::BudgetExpired) == (ProbeState::Done {
            outcome: ProbeOutcome::Failed(timeout_reason(t)),
        }),
{
}

/// A connection attempt that succeeds ends the probe in `Ready`, whatever
/// the budget and however many cycles came before.
pub proof fn lemma_connection_success_is_ready(t: Target, b: TimeBudget, s: ProbeState)
    requires
        s is Connecting || s is Attempting,
    ensures
        spec_step(t, b, s, ProbeEvent::ConnectOk) == (ProbeState::Done {
            outcome: ProbeOutcome::Ready,
        }),
{
}

/// One step cannot fail a probe when the budget is unbounded.
proof fn lemma_step_unbounded_no_failure(t: Target, b: TimeBudget, s: ProbeState, e: ProbeEvent)
    requires
        b.secs == 0,
        !spec_failed(s),
    ensures
        !spec_failed(spec_step(t, b, s, e)),
{
}

/// Helper for `lemma_unbounded_probe_never_fails`, generalized over the
/// start state.
proof fn lemma_run_unbounded_no_failure(
    t: Target,
    b: TimeBudget,
    s: ProbeState,
    events: Seq<ProbeEvent>,
)
    requires
        b.is_unbounded(),
        !spec_failed(s),
    ensures
        !spec_failed(spec_run(t, b, s, events)),
    decreases events.len(),
{
    if events.len() > 0 {
        lemma_step_unbounded_no_failure(t, b, s, events.first());
        lemma_run_unbounded_no_failure(t, b, spec_step(t, b, s, events.first()),
            events.drop_first());
    }
}

/// A probe with a zero budget is polled indefinitely: no history of
/// events, however long, can end it in failure — there is no hidden bound
/// on the number of polling cycles.
pub proof fn lemma_unbounded_probe_never_fails(
    t: Target,
    b: TimeBudget,
    events: Seq<ProbeEvent>,
)
    requires
        b.is_unbounded(),
    ensures
        !spec_failed(spec_run(t, b, init_state(t), events)),
{
    lemma_run_unbounded_no_failure(t, b, init_state(t), events);
}

/// A resolution answer is used freshly: the state entered on `Resolved`,
/// and the first address then tried, are a function of that answer alone —
/// the machine keeps no earlier answer that could be reused.
pub proof fn lemma_resolution_is_fresh(t: Target, b: TimeBudget, addrs: Vec<ResolvedAddr>)
    requires
        t is Tcp,
        addrs@.len() > 0,
    ensures
        spec_step(t, b, ProbeState::Resolving, ProbeEvent::Resolved { addrs })
            == (ProbeState::Connecting { addrs, next: 0 }),
        spec_action(t, ProbeState::Connecting { addrs, next: 0 }) == (ProbeAction::TryConnect {
            addr: addrs@[0],
        }),
{
}

} // verus!
