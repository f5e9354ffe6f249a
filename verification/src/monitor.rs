//! The progress monitor: a polling observer that watches one transfer
//! under the same deadline as the transfer itself.
//!
//! Each poll it notes the elapsed time, then stops at the deadline, stops
//! when the transfer's completion signal has fired, and otherwise waits
//! one unit and polls again.  The completion signal is the explicit word
//! of the fetch task — the monitor does not infer completion from the
//! filesystem.

use vstd::prelude::*;

verus! {

/// What one poll of the monitor decides.
#[derive(Clone, Copy, Debug, PartialEq, Eq, Structural)]
pub enum MonitorVerdict {
    /// Neither the deadline nor the completion signal: poll again after
    /// one time unit.
    Continue,
    /// The elapsed time has reached the budget: stop with a timeout note.
    BudgetExhausted,
    /// The transfer has signalled completion before the deadline: stop
    /// with a completion note.
    FetchDone,
}

/// One line of monitor output, identified by the elapsed time it reports.
#[derive(Clone, Copy, Debug, PartialEq, Eq, Structural)]
pub enum MonitorLine {
    /// Periodic progress: this much time has elapsed.
    Progress { elapsed: u64 },
    /// Terminal: the deadline was reached before the completion signal.
    DeadlineReached { elapsed: u64 },
    /// Terminal: the transfer signalled completion at this elapsed time.
    TransferDone { elapsed: u64 },
}

/// The elapsed time a monitor line reports.
pub open spec fn line_elapsed(line: MonitorLine) -> u64 {
    match line {
        MonitorLine::Progress { elapsed } => elapsed,
        MonitorLine::DeadlineReached { elapsed } => elapsed,
        MonitorLine::TransferDone { elapsed } => elapsed,
    }
}

/// Whether a monitor line ends the monitor's run.
pub open spec fn line_is_terminal(line: MonitorLine) -> bool {
    !(line is Progress)
}

/// The verdict of one poll: the deadline is checked first, then the
/// completion signal.
pub open spec fn spec_monitor_verdict(elapsed: u64, budget: u64, fetch_done: bool) -> MonitorVerdict {
    if elapsed >= budget {
        MonitorVerdict::BudgetExhausted
    } else if fetch_done {
        MonitorVerdict::FetchDone
    } else {
        MonitorVerdict::Continue
    }
}

/// One poll of the monitor: given the elapsed time, the shared budget and
/// whether the transfer has signalled completion, decide whether to stop
/// and why.  The deadline takes precedence over a completion signal that
/// arrives in the same poll.
pub fn monitor_poll(elapsed: u64, budget: u64, fetch_done: bool) -> (v: MonitorVerdict)
    ensures
        v == spec_monitor_verdict(elapsed, budget, fetch_done),
{
    if elapsed >= budget {
        MonitorVerdict::BudgetExhausted
    } else if fetch_done {
        MonitorVerdict::FetchDone
    } else {
        MonitorVerdict::Continue
    }
}

/// When the monitor stops: at the signal's arrival when the signal fires
/// strictly inside the budget, at the deadline otherwise.
pub open spec fn spec_monitor_stop(budget: u64, done_at: Option<u64>) -> u64 {
    match done_at {
        Some(d) => if d < budget {
            d
        } else {
            budget
        },
        None => budget,
    }
}

/// Whether the completion signal reaches the monitor before the deadline.
pub open spec fn spec_signal_fires(budget: u64, done_at: Option<u64>) -> bool {
    match done_at {
        Some(d) => d < budget,
        None => false,
    }
}

/// Everything the monitor emits for one transfer whose completion signal
/// fires at `done_at` (`None`: never): one progress line per poll, then
/// one terminal line at the stopping time.
pub open spec fn spec_transcript(budget: u64, done_at: Option<u64>) -> Seq<MonitorLine> {
    let stop = spec_monitor_stop(budget, done_at);
    Seq::new(stop as nat + 1, |i: int| MonitorLine::Progress { elapsed: i as u64 }) + seq![
        if spec_signal_fires(budget, done_at) {
            MonitorLine::TransferDone { elapsed: stop }
        } else {
            MonitorLine::DeadlineReached { elapsed: stop }
        },
    ]
}

/// Runs the whole monitor for one transfer, polling once per time unit
/// from zero: the transcript is exactly `spec_transcript`, so the monitor
/// stops within one polling interval of the deadline or of the completion
/// signal, whichever comes first.
pub fn run_monitor(budget: u64, done_at: &Option<u64>) -> (transcript: Vec<MonitorLine>)
    ensures
        transcript@ == spec_transcript(budget, *done_at),
{
    let ghost stop = spec_monitor_stop(budget, *done_at);
    let mut lines: Vec<MonitorLine> = Vec::new();
    let mut t: u64 = 0;
    loop
        invariant_except_break
            t <= budget,
            t <= stop,
            stop == spec_monitor_stop(budget, *done_at),
            lines@ =~= Seq::new(t as nat, |i: int| MonitorLine::Progress { elapsed: i as u64 }),
        ensures
            lines@ == spec_transcript(budget, *done_at),
        decreases budget - t,
    {
        lines.push(MonitorLine::Progress { elapsed: t });
        let fetch_done = match *done_at {
            Some(d) => d <= t,
            None => false,
        };
        let verdict = monitor_poll(t, budget, fetch_done);
        match verdict {
            MonitorVerdict::Continue => {
                t = t + 1;
            },
            MonitorVerdict::BudgetExhausted => {
                lines.push(MonitorLine::DeadlineReached { elapsed: t });
                proof {
                    assert(t == stop);
                    assert(!spec_signal_fires(budget, *done_at));
                    assert(lines@ =~= spec_transcript(budget, *done_at));
                }
                break;
            },
            MonitorVerdict::FetchDone => {
                lines.push(MonitorLine::TransferDone { elapsed: t });
                proof {
                    assert(t == stop);
                    assert(spec_signal_fires(budget, *done_at));
                    assert(lines@ =~= spec_transcript(budget, *done_at));
                }
                break;
            },
        }
    }
    lines
}

} // verus!
