//! Bounded-time acquisition of remote reference-data artifacts.
//!
//! The library decides when a remote artifact (an ephemeris kernel or the
//! leap-second table) must be fetched, classifies what a transfer amounted
//! to, and drives a progress monitor that watches the same deadline as the
//! transfer itself.  Network and filesystem work is left to the caller; the
//! decisions around it are verified here.

pub mod coordinator;
pub mod monitor;
pub mod outcome;
pub mod probe;
pub mod readable;
pub mod sources;
