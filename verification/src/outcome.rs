//! Outcomes of one artifact acquisition and the classification of a
//! finished transfer.

use vstd::prelude::*;

verus! {

/// The ways one fetch can go wrong.
#[derive(Clone, Copy, Debug, PartialEq, Eq, Structural)]
pub enum FetchError {
    /// Connection-level failure: the remote endpoint could not be reached
    /// or the connection broke before the body was delivered.
    Transport,
    /// The remote endpoint answered with a non-success HTTP status.
    Remote(u16),
    /// The body arrived but could not be committed to local storage.
    LocalIo,
}

/// The final word of the coordinator on one artifact request.
#[derive(Clone, Copy, Debug, PartialEq, Eq, Structural)]
pub enum FetchOutcome {
    /// The artifact was already present and no update was requested;
    /// nothing was transferred.
    Skipped,
    /// The whole body was delivered and committed to local storage.
    Completed { bytes_written: u64, elapsed: u64 },
    /// The shared deadline fired before the transfer finished.
    TimedOut { elapsed: u64 },
    /// The transfer ended before the deadline, unsuccessfully.
    Failed { error: FetchError },
}

/// What the caller observed of one transfer, reported back to the
/// coordinator: either the full body was delivered and written, or the
/// attempt ended in one of the failure classes.
#[derive(Clone, Copy, Debug, PartialEq, Eq, Structural)]
pub enum TransferReport {
    /// The response body, of this many bytes, was received in full and
    /// written to the destination.
    Delivered { bytes: u64 },
    /// The remote endpoint answered with this non-success status.
    RemoteStatus { code: u16 },
    /// The client-level deadline cut the request off.
    TransportTimeout,
    /// The request failed below HTTP: refused connection, broken stream.
    TransportFailure,
    /// Creating or writing the destination file failed.
    LocalWriteFailure,
}

/// HTTP statuses counted as success: the 2xx class.
pub open spec fn status_is_success(code: u16) -> bool {
    200 <= code < 300
}

/// Whether an HTTP status allows the transfer to proceed to the write.
pub fn status_accepted(code: u16) -> (ok: bool)
    ensures
        ok == status_is_success(code),
{
    200 <= code && code < 300
}

/// The outcome that a transfer report amounts to, after `elapsed` time
/// units of a fetch.
pub open spec fn spec_conclude(report: TransferReport, elapsed: u64) -> FetchOutcome {
    match report {
        TransferReport::Delivered { bytes } => FetchOutcome::Completed {
            bytes_written: bytes,
            elapsed,
        },
        TransferReport::RemoteStatus { code } => FetchOutcome::Failed {
            error: FetchError::Remote(code),
        },
        TransferReport::TransportTimeout => FetchOutcome::TimedOut { elapsed },
        TransferReport::TransportFailure => FetchOutcome::Failed { error: FetchError::Transport },
        TransferReport::LocalWriteFailure => FetchOutcome::Failed { error: FetchError::LocalIo },
    }
}

/// Turns what the caller observed of a transfer into the coordinator's
/// final outcome.  A delivered body completes the fetch with exactly the
/// bytes that were received; a deadline cut is a timeout; every other
/// report is a failure of its own class.
pub fn conclude(report: &TransferReport, elapsed: u64) -> (o: FetchOutcome)
    ensures
        o == spec_conclude(*report, elapsed),
{
    match *report {
        TransferReport::Delivered { bytes } => FetchOutcome::Completed {
            bytes_written: bytes,
            elapsed,
        },
        TransferReport::RemoteStatus { code } => FetchOutcome::Failed {
            error: FetchError::Remote(code),
        },
        TransferReport::TransportTimeout => FetchOutcome::TimedOut { elapsed },
        TransferReport::TransportFailure => FetchOutcome::Failed { error: FetchError::Transport },
        TransferReport::LocalWriteFailure => FetchOutcome::Failed { error: FetchError::LocalIo },
    }
}

} // verus!
