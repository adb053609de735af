//! End-to-end scenarios: the probe machine driven under a real clock and
//! budget, the way the surrounding binary drives it. TCP reachability is
//! simulated by a clock-based switch (the tests run without a network);
//! socket targets connect to a real local listener.

use std::time::Duration;

use tokio::time::Instant;
use wait_service::cli::get_args;
use wait_service::handoff::{failure_exit_code, handoff_plan};
use wait_service::loader::{load_targets, ManifestEntry};
use wait_service::probe::{
    FailReason, ProbeAction, ProbeEvent, ProbeOutcome, ProbeTask, TimeBudget, POLL_INTERVAL_MS,
};
use wait_service::resolver::{plan_resolution, IpRepr, ResolvePlan};
use wait_service::supervisor::Supervisor;
use wait_service::target::{SocketTarget, Target, TcpTarget};

fn rt() -> tokio::runtime::Runtime {
    tokio::runtime::Builder::new_current_thread().enable_all().build().unwrap()
}

/// The literal-IPv4 fast path of the test driver (the binary uses the
/// platform's parser; these scenarios only ever name IPv4 literals).
fn parse_v4(host: &str) -> Option<IpRepr> {
    let parts: Vec<&str> = host.split('.').collect();
    if parts.len() != 4 {
        return None;
    }
    let mut bits: u32 = 0;
    for p in parts {
        if p.is_empty() || p.len() > 3 || !p.bytes().all(|b| b.is_ascii_digit()) {
            return None;
        }
        let v: u32 = match p.parse() {
            Ok(v) => v,
            Err(_) => return None,
        };
        if v > 255 {
            return None;
        }
        bits = (bits << 8) | v;
    }
    Some(IpRepr::V4(bits))
}

/// Perform the actions the machine asks for until it is done, under a real
/// clock. A TCP connection attempt succeeds exactly when `tcp_up()` says
/// the endpoint is reachable; a socket attempt connects to the real path.
/// The task lives in `slot` so that a cancellation (budget expiry) still
/// leaves the last state behind.
async fn drive_loop(slot: &mut Option<ProbeTask>, tcp_up: &dyn Fn() -> bool) {
    loop {
        let (action, host, port, path) = {
            let t = slot.as_ref().unwrap();
            if t.is_done() {
                return;
            }
            let (host, port, path) = match &t.target {
                Target::Tcp(tt) => (tt.host.clone(), tt.port, String::new()),
                Target::Uds(u) => (String::new(), 0u16, u.path.clone()),
            };
            (t.next_action(), host, port, path)
        };
        let ev = match action {
            ProbeAction::Resolve => match plan_resolution(parse_v4(&host), port) {
                ResolvePlan::Literal(addr) => ProbeEvent::Resolved { addrs: vec![addr] },
                // these scenarios have no resolver; a name would fail and
                // be retried like any resolution error
                ResolvePlan::Lookup => ProbeEvent::ResolveFailed,
            },
            ProbeAction::TryConnect { addr: _ } => {
                if tcp_up() {
                    ProbeEvent::ConnectOk
                } else {
                    ProbeEvent::ConnectFailed
                }
            },
            ProbeAction::TryPath => match tokio::net::UnixStream::connect(&path).await {
                Ok(_) => ProbeEvent::ConnectOk,
                Err(_) => ProbeEvent::ConnectFailed,
            },
            ProbeAction::Sleep => {
                tokio::time::sleep(Duration::from_millis(POLL_INTERVAL_MS)).await;
                ProbeEvent::SleepFinished
            },
        };
        let t = slot.take().unwrap();
        *slot = Some(t.step(ev));
    }
}

/// One probe under its budget, exactly as the binary runs it: unbounded
/// when the budget is zero, otherwise cancelled at expiry and fed the
/// expiry event.
async fn drive(task: ProbeTask, tcp_up: &dyn Fn() -> bool) -> ProbeOutcome {
    let secs = task.budget.secs;
    let mut slot = Some(task);
    if secs == 0 {
        drive_loop(&mut slot, tcp_up).await;
    } else {
        let bounded =
            tokio::time::timeout(Duration::from_secs(secs), drive_loop(&mut slot, tcp_up)).await;
        if bounded.is_err() {
            let t = slot.take().unwrap();
            slot = Some(t.step(ProbeEvent::BudgetExpired));
        }
    }
    slot.take().unwrap().take_outcome().unwrap()
}

#[test]
fn scenario_listener_appears_after_one_second() {
    rt().block_on(async {
        // 127.0.0.1:9 with an unbounded budget; the endpoint accepts
        // connections only from one second on, so the probe has to poll
        let start = Instant::now();
        let up = move || start.elapsed() >= Duration::from_secs(1);
        let target = Target::Tcp(TcpTarget { host: String::from("127.0.0.1"), port: 9 });
        let outcome = drive(ProbeTask::new(target, TimeBudget { secs: 0 }), &up).await;
        assert_eq!(outcome, ProbeOutcome::Ready);

        let mut sup = Supervisor::new(1);
        assert_eq!(sup.record(outcome), None);
        assert!(sup.decided());
        assert!(sup.verdict());
        assert!(sup.should_handoff());

        // the handoff gets the literal downstream command
        let plan = handoff_plan(vec![String::from("npm"), String::from("start")]);
        assert_eq!(plan.program, "npm");
        assert_eq!(plan.args, vec![String::from("start")]);
    });
}

#[test]
fn scenario_no_listener_times_out() {
    rt().block_on(async {
        // a port where nothing ever listens, and a one-second budget
        let never = || false;
        let port = 38117u16;
        let target = Target::Tcp(TcpTarget { host: String::from("127.0.0.1"), port });
        let before = Instant::now();
        let outcome = drive(ProbeTask::new(target, TimeBudget { secs: 1 }), &never).await;
        // the probe ran its full budget, then failed
        assert!(before.elapsed() >= Duration::from_secs(1));
        match &outcome {
            ProbeOutcome::Failed(FailReason::TcpTimeout { host, port: p }) => {
                // the diagnostic names host and port
                assert_eq!(host, "127.0.0.1");
                assert_eq!(*p, port);
            },
            other => panic!("expected a TCP timeout, got {:?}", other),
        }

        let mut sup = Supervisor::new(1);
        // the failure is reported immediately
        assert!(sup.record(outcome).is_some());
        assert!(sup.decided());
        assert!(!sup.verdict());
        // no handoff; the process exits with the non-zero sentinel
        assert!(!sup.should_handoff());
        assert_eq!(failure_exit_code(), -1);
    });
}

#[test]
fn scenario_manifest_tcp_and_socket_both_ready() {
    rt().block_on(async {
        let sock_path = "/tmp/wait_service_scenario.sock";
        let manifest_path = "/tmp/wait_service_scenario.json";
        let _ = tokio::fs::remove_file(sock_path).await;

        // the socket endpoint listens from the start; the TCP endpoint is
        // reachable from the start
        let uds_l = tokio::net::UnixListener::bind(sock_path).unwrap();
        let always = || true;

        // a manifest with one TCP and one socket entry
        let text = format!(
            "[{{\"host\":\"127.0.0.1\",\"port\":4170}},{{\"uds\":\"{}\"}}]",
            sock_path
        );
        tokio::fs::write(manifest_path, &text).await.unwrap();

        // load it the way the binary does: parse the JSON, then classify
        let raw = tokio::fs::read_to_string(manifest_path).await.unwrap();
        let parsed: serde_json::Value = serde_json::from_str(&raw).unwrap();
        let mut entries: Vec<ManifestEntry> = Vec::new();
        for item in parsed.as_array().unwrap() {
            entries.push(ManifestEntry {
                host: item.get("host").and_then(|h| h.as_str()).map(String::from),
                port: item.get("port").and_then(|p| p.as_u64()),
                uds: item.get("uds").and_then(|u| u.as_str()).map(String::from),
            });
        }

        let args = get_args(
            5,
            vec![String::from("run")],
            vec![],
            vec![],
            vec![String::from(manifest_path)],
        )
        .unwrap();
        let targets = load_targets(&args, &entries, true).unwrap();
        assert_eq!(targets.len(), 2);
        assert!(matches!(&targets[0], Target::Tcp(_)));
        assert!(matches!(&targets[1], Target::Uds(SocketTarget { .. })));

        let mut sup = Supervisor::new(targets.len());
        for t in targets {
            let outcome = drive(ProbeTask::new(t, TimeBudget { secs: args.timeout }), &always).await;
            assert_eq!(outcome, ProbeOutcome::Ready);
            assert_eq!(sup.record(outcome), None);
        }
        assert!(sup.decided());
        assert!(sup.verdict());
        assert!(sup.should_handoff());

        drop(uds_l);
        let _ = tokio::fs::remove_file(sock_path).await;
        let _ = tokio::fs::remove_file(manifest_path).await;
    });
}
