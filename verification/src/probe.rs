//! Existence probe for local artifacts.
//!
//! The probe answers whether a named artifact is already in local storage.
//! A path whose status cannot be determined is reported as such, not
//! silently folded into "absent".

use vstd::prelude::*;
use std::path::Path;

verus! {

/// What a probe of local storage found.
#[derive(Clone, Copy, Debug, PartialEq, Eq, Structural)]
pub enum ProbeReport {
    /// The artifact is present at the probed path.
    Present,
    /// The probed path holds nothing.
    Absent,
    /// Local storage could not say either way; callers should warn and
    /// treat the artifact as worth fetching.
    Unknown,
}

/// Relies on `std::path::Path::try_exists`: `Ok(true)` when the path
/// provably exists, `Ok(false)` when it provably does not, `Err` when its
/// status could not be determined.  The result depends on what is in local
/// storage, so nothing is promised of it.
#[verifier::external_body]
fn try_probe(path: &str) -> Result<bool, ()> {
    match Path::new(path).try_exists() {
        Ok(b) => Ok(b),
        Err(_) => Err(()),
    }
}

/// The probe report that a raw existence answer amounts to.
pub open spec fn spec_report_of_probe(raw: Result<bool, ()>) -> ProbeReport {
    match raw {
        Ok(true) => ProbeReport::Present,
        Ok(false) => ProbeReport::Absent,
        Err(_) => ProbeReport::Unknown,
    }
}

/// Classifies a raw existence answer: a definite answer maps to
/// `Present` or `Absent`, an indeterminate one to `Unknown`.
pub fn report_of_probe(raw: Result<bool, ()>) -> (r: ProbeReport)
    ensures
        r == spec_report_of_probe(raw),
{
    match raw {
        Ok(true) => ProbeReport::Present,
        Ok(false) => ProbeReport::Absent,
        Err(_) => ProbeReport::Unknown,
    }
}

/// Probes local storage for the artifact at `path`.  The report reflects
/// whatever local storage answered at the moment of the call.
pub fn probe_artifact(path: &str) -> ProbeReport {
    let raw = try_probe(path);
    report_of_probe(raw)
}

/// Whether a file counts as binary, from what its metadata answered:
/// `Some(regular)` when the metadata could be read and says whether the
/// handle is a regular file, `None` when it could not be read — then the
/// file counts as binary.
pub open spec fn spec_is_binary(regular: Option<bool>) -> bool {
    match regular {
        Some(b) => b,
        None => true,
    }
}

/// Classifies a file handle from its probed metadata: a handle whose
/// metadata could not be read counts as binary; otherwise it is binary
/// exactly when the metadata marks it a regular file.
pub fn is_binary_from_metadata(regular: Option<bool>) -> (b: bool)
    ensures
        b == spec_is_binary(regular),
{
    match regular {
        Some(b) => b,
        None => true,
    }
}

/// Whether a file exists at `filename`.  A path whose status cannot be
/// determined counts as not existing here; `probe_artifact` tells those
/// cases apart.
pub fn file_exists(filename: &str) -> bool {
    match try_probe(filename) {
        Ok(b) => b,
        Err(_) => false,
    }
}

} // verus!
