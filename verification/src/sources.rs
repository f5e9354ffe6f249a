//! The two remote data sources and the paths their artifacts are stored
//! under, plus the decision of whether the leap-second table needs a fetch.
//!
//! A request URL is the fixed base endpoint with the artifact's name
//! appended as one path segment; no escaping is performed, so callers must
//! supply URL-safe, filesystem-safe names.

use vstd::prelude::*;
use vstd::string::StringExecFns;
use crate::coordinator::should_fetch;
use crate::probe::probe_artifact;

verus! {

/// The leap-second table endpoint.
pub fn tai_utc_url() -> (url: &'static str)
    ensures
        url@ == "https://maia.usno.navy.mil/ser7/tai-utc.dat"@,
{
    "https://maia.usno.navy.mil/ser7/tai-utc.dat"
}

/// The local path the leap-second table is stored under.
pub fn tai_utc_path() -> (path: &'static str)
    ensures
        path@ == "data/tai-utc.dat"@,
{
    "data/tai-utc.dat"
}

/// The base endpoint of the ephemeris-kernel repository.
pub fn bsp_base_url() -> (url: &'static str)
    ensures
        url@ == "https://ssd.jpl.nasa.gov/ftp/eph/planets/bsp/"@,
{
    "https://ssd.jpl.nasa.gov/ftp/eph/planets/bsp/"
}

/// Joins a base endpoint and an artifact name into a request URL by plain
/// concatenation.
pub fn build_artifact_url(base: &str, name: &str) -> (url: String)
    ensures
        url@ == base@ + name@,
{
    let mut url = String::from_str(base);
    url.append(name);
    url
}

/// The request URL for an ephemeris kernel of the given name.
pub fn bsp_url(file_name: &str) -> (url: String)
    ensures
        url@ == "https://ssd.jpl.nasa.gov/ftp/eph/planets/bsp/"@ + file_name@,
{
    build_artifact_url(bsp_base_url(), file_name)
}

/// The local path an artifact of the given name is stored under: the fixed
/// data directory with the name appended.
pub fn artifact_local_path(file_name: &str) -> (path: String)
    ensures
        path@ == "data/"@ + file_name@,
{
    let mut path = String::from_str("data/");
    path.append(file_name);
    path
}

/// Whether the leap-second table must be downloaded: always under a forced
/// update, otherwise only when the probe of its local path did not find it.
/// Whatever local storage answers, a forced update always asks for a fetch.
pub fn get_tai_utc_data(update_file: bool) -> (fetch_needed: bool)
    ensures
        update_file ==> fetch_needed,
{
    let report = probe_artifact(tai_utc_path());
    should_fetch(update_file, &report)
}

} // verus!
