use astrorust::coordinator::{run_acquire, should_fetch, ArtifactRequest, TransferScript};
use astrorust::monitor::MonitorLine;
use astrorust::outcome::{FetchError, FetchOutcome};
use astrorust::probe::ProbeReport;

fn request(name: &str, update_requested: bool, time_budget: u64) -> ArtifactRequest {
    ArtifactRequest {
        name: String::from(name),
        local_path: format!("data/{}", name),
        update_requested,
        time_budget,
    }
}

#[test]
fn scenario_absent_artifact_completes() {
    // Artifact not present locally, transfer delivers 1234 bytes at t = 1.
    let req = request("leap-seconds.dat", false, 5);
    let run = run_acquire(
        &req,
        &ProbeReport::Absent,
        &TransferScript::Delivers { at: 1, bytes: 1234 },
    );
    assert!(run.network_attempted);
    assert_eq!(
        run.outcome,
        FetchOutcome::Completed { bytes_written: 1234, elapsed: 1 }
    );
    assert_eq!(
        run.transcript,
        vec![
            MonitorLine::Progress { elapsed: 0 },
            MonitorLine::Progress { elapsed: 1 },
            MonitorLine::TransferDone { elapsed: 1 },
        ]
    );
}

#[test]
fn scenario_present_artifact_skipped() {
    // Artifact present, no update requested: no transfer, no monitor.
    let req = request("big.bsp", false, 5);
    let run = run_acquire(
        &req,
        &ProbeReport::Present,
        &TransferScript::Delivers { at: 0, bytes: 99 },
    );
    assert!(!run.network_attempted);
    assert_eq!(run.outcome, FetchOutcome::Skipped);
    assert!(run.transcript.is_empty());
}

#[test]
fn scenario_forced_update_times_out() {
    // Update requested with a zero budget while the transfer would need
    // two units: the deadline cuts it off and nothing is committed.
    let req = request("big.bsp", true, 0);
    let run = run_acquire(
        &req,
        &ProbeReport::Present,
        &TransferScript::Delivers { at: 2, bytes: 7 },
    );
    assert!(run.network_attempted);
    assert_eq!(run.outcome, FetchOutcome::TimedOut { elapsed: 0 });
    assert_eq!(
        run.transcript,
        vec![
            MonitorLine::Progress { elapsed: 0 },
            MonitorLine::DeadlineReached { elapsed: 0 },
        ]
    );
}

#[test]
fn scenario_http_not_found() {
    let req = request("nosuch.bsp", false, 5);
    let run = run_acquire(
        &req,
        &ProbeReport::Absent,
        &TransferScript::Fails { at: 0, error: FetchError::Remote(404) },
    );
    assert_eq!(
        run.outcome,
        FetchOutcome::Failed { error: FetchError::Remote(404) }
    );
    assert_eq!(
        run.transcript.last(),
        Some(&MonitorLine::TransferDone { elapsed: 0 })
    );
}

#[test]
fn scenario_endpoint_unreachable() {
    let req = request("de405.bsp", false, 5);
    let run = run_acquire(
        &req,
        &ProbeReport::Absent,
        &TransferScript::Fails { at: 0, error: FetchError::Transport },
    );
    assert_eq!(
        run.outcome,
        FetchOutcome::Failed { error: FetchError::Transport }
    );
}

#[test]
fn stalling_transfer_times_out_at_budget() {
    let req = request("de405.bsp", true, 3);
    let run = run_acquire(&req, &ProbeReport::Absent, &TransferScript::Stalls);
    assert_eq!(run.outcome, FetchOutcome::TimedOut { elapsed: 3 });
    // One progress line per poll from 0 through the budget, then the
    // terminal line: within one polling interval of the deadline.
    assert_eq!(run.transcript.len(), 5);
    assert_eq!(
        run.transcript.last(),
        Some(&MonitorLine::DeadlineReached { elapsed: 3 })
    );
}

#[test]
fn delivery_at_deadline_counts_as_timeout() {
    let req = request("de405.bsp", true, 2);
    let run = run_acquire(
        &req,
        &ProbeReport::Absent,
        &TransferScript::Delivers { at: 2, bytes: 7 },
    );
    assert_eq!(run.outcome, FetchOutcome::TimedOut { elapsed: 2 });
}

#[test]
fn local_write_failure_is_reported() {
    let req = request("de405.bsp", true, 5);
    let run = run_acquire(
        &req,
        &ProbeReport::Absent,
        &TransferScript::Fails { at: 1, error: FetchError::LocalIo },
    );
    assert_eq!(
        run.outcome,
        FetchOutcome::Failed { error: FetchError::LocalIo }
    );
}

#[test]
fn force_update_always_fetches() {
    assert!(should_fetch(true, &ProbeReport::Present));
    assert!(should_fetch(true, &ProbeReport::Absent));
    assert!(should_fetch(true, &ProbeReport::Unknown));
}

#[test]
fn skip_only_when_definitely_present() {
    assert!(!should_fetch(false, &ProbeReport::Present));
    assert!(should_fetch(false, &ProbeReport::Absent));
    assert!(should_fetch(false, &ProbeReport::Unknown));
}
