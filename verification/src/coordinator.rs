//! The fetch coordinator: one artifact request, one decision whether to
//! transfer at all, one transfer watched by a progress monitor, one final
//! outcome.

use vstd::prelude::*;
use crate::monitor::{
    line_elapsed, line_is_terminal, run_monitor, spec_transcript, MonitorLine,
};
use crate::outcome::{conclude, spec_conclude, FetchError, FetchOutcome, TransferReport};
use crate::probe::ProbeReport;

verus! {

/// One caller request: which artifact, where it lives locally, whether an
/// update is wanted even if it is already present, and how much time the
/// whole fetch may take, in whole time units.
#[derive(Clone, Debug)]
pub struct ArtifactRequest {
    /// Name of the remote artifact; must be URL-safe and filesystem-safe.
    pub name: String,
    /// Filesystem destination for the artifact.
    pub local_path: String,
    /// Fetch even when the artifact is already present.
    pub update_requested: bool,
    /// Wall-clock budget for the whole transfer, in time units.
    pub time_budget: u64,
}

/// Whether a request calls for a transfer, given what the probe of the
/// local path found: a forced update always does, and otherwise anything
/// short of a definitely present artifact does.
pub open spec fn spec_should_fetch(update_requested: bool, report: ProbeReport) -> bool {
    update_requested || report != ProbeReport::Present
}

/// Decides whether the transfer must be started.  The fetch is skipped
/// exactly when no update was requested and the artifact was found
/// present; an indeterminate probe counts as worth fetching.
pub fn should_fetch(update_requested: bool, report: &ProbeReport) -> (fetch: bool)
    ensures
        fetch == spec_should_fetch(update_requested, *report),
{
    update_requested || !matches!(*report, ProbeReport::Present)
}

/// What one simulated transfer does, seen from outside: it delivers the
/// whole body at some time, breaks at some time with a failure class, or
/// never finishes at all.
#[derive(Clone, Copy, Debug, PartialEq, Eq, Structural)]
pub enum TransferScript {
    /// The full body, of this many bytes, is delivered and committed at
    /// time `at`.
    Delivers { at: u64, bytes: u64 },
    /// The attempt ends at time `at` with this failure class.
    Fails { at: u64, error: FetchError },
    /// The transfer never finishes.
    Stalls,
}

/// Whether the scripted transfer finishes strictly before the shared
/// deadline.  A transfer still in flight at the deadline is cut off.
pub open spec fn spec_finishes_in_time(budget: u64, script: TransferScript) -> bool {
    match script {
        TransferScript::Delivers { at, .. } => at < budget,
        TransferScript::Fails { at, .. } => at < budget,
        TransferScript::Stalls => false,
    }
}

/// The failure report that a failure class amounts to.
pub open spec fn spec_failure_report(error: FetchError) -> TransferReport {
    match error {
        FetchError::Transport => TransferReport::TransportFailure,
        FetchError::Remote(code) => TransferReport::RemoteStatus { code },
        FetchError::LocalIo => TransferReport::LocalWriteFailure,
    }
}

/// Maps a failure class back to the transfer report that carries it.
pub fn failure_report(error: &FetchError) -> (r: TransferReport)
    ensures
        r == spec_failure_report(*error),
{
    match *error {
        FetchError::Transport => TransferReport::TransportFailure,
        FetchError::Remote(code) => TransferReport::RemoteStatus { code },
        FetchError::LocalIo => TransferReport::LocalWriteFailure,
    }
}

/// What the fetch task reports under the shared deadline: the scripted
/// delivery or failure when it comes in time, a transport timeout when the
/// deadline cuts the transfer off.
pub open spec fn spec_transfer_report(budget: u64, script: TransferScript) -> TransferReport {
    if spec_finishes_in_time(budget, script) {
        match script {
            TransferScript::Delivers { bytes, .. } => TransferReport::Delivered { bytes },
            TransferScript::Fails { error, .. } => spec_failure_report(error),
            TransferScript::Stalls => TransferReport::TransportTimeout,
        }
    } else {
        TransferReport::TransportTimeout
    }
}

/// When the fetch task ends: at the scripted time when that is inside the
/// budget, at the deadline otherwise.
pub open spec fn spec_event_elapsed(budget: u64, script: TransferScript) -> u64 {
    match script {
        TransferScript::Delivers { at, .. } => if at < budget {
            at
        } else {
            budget
        },
        TransferScript::Fails { at, .. } => if at < budget {
            at
        } else {
            budget
        },
        TransferScript::Stalls => budget,
    }
}

/// When the completion signal reaches the monitor: the moment the fetch
/// task ends, if that is before the deadline; never otherwise, since the
/// monitor's own deadline check fires first.
pub open spec fn spec_signal_time(budget: u64, script: TransferScript) -> Option<u64> {
    if spec_finishes_in_time(budget, script) {
        Some(spec_event_elapsed(budget, script))
    } else {
        None
    }
}

/// The outcome of one attempted transfer under the shared deadline.
pub open spec fn spec_acquire_outcome(budget: u64, script: TransferScript) -> FetchOutcome {
    spec_conclude(spec_transfer_report(budget, script), spec_event_elapsed(budget, script))
}

/// One whole acquisition, as a value: the outcome, everything the monitor
/// said, and whether a transfer was attempted at all.
pub open spec fn spec_acquire(
    update_requested: bool,
    report: ProbeReport,
    budget: u64,
    script: TransferScript,
) -> (FetchOutcome, Seq<MonitorLine>, bool) {
    if spec_should_fetch(update_requested, report) {
        (
            spec_acquire_outcome(budget, script),
            spec_transcript(budget, spec_signal_time(budget, script)),
            true,
        )
    } else {
        (FetchOutcome::Skipped, Seq::<MonitorLine>::empty(), false)
    }
}

/// The coordinator's return value: the final outcome, the monitor's whole
/// transcript — closed before the coordinator hands it back — and whether
/// a transfer was attempted.
#[derive(Clone, Debug)]
pub struct AcquireRun {
    /// The final word on the request.
    pub outcome: FetchOutcome,
    /// Every line the monitor emitted, in order; empty when the fetch was
    /// skipped and no monitor ran.
    pub transcript: Vec<MonitorLine>,
    /// Whether a transfer was attempted; `false` exactly for a skip.
    pub network_attempted: bool,
}

/// Coordinates one whole acquisition against a scripted transfer: skips
/// when the artifact is present and no update was requested, and otherwise
/// runs the monitor and the scripted transfer under one shared deadline
/// and joins both before returning.  The run equals `spec_acquire` on the
/// request, probe report and script.
pub fn run_acquire(request: &ArtifactRequest, report: &ProbeReport, script: &TransferScript) -> (run:
    AcquireRun)
    ensures
        ({
            let model = spec_acquire(
                request.update_requested,
                *report,
                request.time_budget,
                *script,
            );
            run.outcome == model.0 && run.transcript@ == model.1 && run.network_attempted
                == model.2
        }),
{
    let fetch = should_fetch(request.update_requested, report);
    if !fetch {
        AcquireRun { outcome: FetchOutcome::Skipped, transcript: Vec::new(), network_attempted: false }
    } else {
        let budget = request.time_budget;
        let (transfer_report, elapsed, signal_time): (TransferReport, u64, Option<u64>) =
            match *script {
            TransferScript::Delivers { at, bytes } => {
                if at < budget {
                    (TransferReport::Delivered { bytes }, at, Some(at))
                } else {
                    (TransferReport::TransportTimeout, budget, None)
                }
            },
            TransferScript::Fails { at, error } => {
                if at < budget {
                    (failure_report(&error), at, Some(at))
                } else {
                    (TransferReport::TransportTimeout, budget, None)
                }
            },
            TransferScript::Stalls => (TransferReport::TransportTimeout, budget, None),
        };
        let transcript = run_monitor(budget, &signal_time);
        let outcome = conclude(&transfer_report, elapsed);
        AcquireRun { outcome, transcript, network_attempted: true }
    }
}

/// Skip law: when the artifact is already present and no update was
/// requested, the acquisition is skipped — no transfer is attempted and
/// the monitor never runs, whatever the budget and whatever the transfer
/// would have done.
pub proof fn lemma_skip_when_present(budget: u64, script: TransferScript)
    ensures
        spec_acquire(false, ProbeReport::Present, budget, script) == (
            FetchOutcome::Skipped,
            Seq::<MonitorLine>::empty(),
            false,
        ),
{
}

/// Force-update law: when an update is requested, a transfer is attempted
/// whatever the probe of local storage found.
pub proof fn lemma_force_update_attempts(report: ProbeReport, budget: u64, script: TransferScript)
    ensures
        spec_acquire(true, report, budget, script).2,
{
}

/// Timeout law: when a transfer is attempted and does not finish within
/// the budget, the outcome is `TimedOut` at exactly the budget, and the
/// monitor stops within one polling interval of the deadline: its last
/// line reports the budget and the transcript holds `budget + 2` lines.
pub proof fn lemma_timeout(
    update_requested: bool,
    report: ProbeReport,
    budget: u64,
    script: TransferScript,
)
    requires
        spec_should_fetch(update_requested, report),
        !spec_finishes_in_time(budget, script),
    ensures
        ({
            let model = spec_acquire(update_requested, report, budget, script);
            model.0 == (FetchOutcome::TimedOut { elapsed: budget }) && model.1.len() == budget
                + 2 && model.1.last() == (MonitorLine::DeadlineReached { elapsed: budget })
        }),
{
}

/// Write-exactness law: whenever an acquisition completes, the transfer
/// was a delivery that finished inside the budget, and the bytes written
/// equal exactly the bytes the response delivered.
pub proof fn lemma_write_exactness(
    update_requested: bool,
    report: ProbeReport,
    budget: u64,
    script: TransferScript,
)
    requires
        spec_acquire(update_requested, report, budget, script).0 is Completed,
    ensures
        script matches TransferScript::Delivers { at, bytes } && at < budget && spec_acquire(
            update_requested,
            report,
            budget,
            script,
        ).0 == (FetchOutcome::Completed { bytes_written: bytes, elapsed: at }),
{
}

/// Shared-deadline law: the monitor and the fetch task watch one clock,
/// so their words agree.  When a transfer is attempted, the monitor's
/// terminal line reports completion exactly when the transfer finished
/// inside the budget — and then at the very time the outcome reports —
/// and reports the deadline exactly when the outcome is a timeout.
pub proof fn lemma_monitor_agrees_with_outcome(
    update_requested: bool,
    report: ProbeReport,
    budget: u64,
    script: TransferScript,
)
    requires
        spec_should_fetch(update_requested, report),
    ensures
        ({
            let model = spec_acquire(update_requested, report, budget, script);
            &&& (model.1.last() is TransferDone) == spec_finishes_in_time(budget, script)
            &&& (model.1.last() is DeadlineReached) == (model.0 is TimedOut)
            &&& line_elapsed(model.1.last()) == spec_event_elapsed(budget, script)
        }),
{
}

/// Non-interference law: everything the monitor says is inside the
/// transcript the coordinator hands back, and that transcript is closed:
/// when no transfer was attempted it is empty; when one was, it ends with
/// exactly one terminal line, every line before it is a progress line
/// reporting its own index, and no line reports a later time than the
/// terminal one.
pub proof fn lemma_transcript_closed(
    update_requested: bool,
    report: ProbeReport,
    budget: u64,
    script: TransferScript,
)
    ensures
        ({
            let model = spec_acquire(update_requested, report, budget, script);
            &&& !model.2 ==> model.1.len() == 0
            &&& model.2 ==> {
                &&& model.1.len() >= 2
                &&& line_is_terminal(model.1.last())
                &&& forall|i: int|
                    0 <= i < model.1.len() - 1 ==> model.1[i] == (MonitorLine::Progress {
                        elapsed: i as u64,
                    })
                &&& forall|i: int|
                    0 <= i < model.1.len() ==> line_elapsed(#[trigger] model.1[i]) <= line_elapsed(
                        model.1.last(),
                    )
            }
        }),
{
}

} // verus!
