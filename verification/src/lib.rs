//! Single-instance supervision of a backend server process.
//!
//! The crate holds the decisions of the supervisor: when a start request
//! launches a process, what the launched process is given, how a health probe is
//! judged, and in which order a restart proceeds. The caller performs the
//! effects (spawning, killing, waiting, the network request) and reports what
//! came of them.

pub mod launch;
pub mod probe;
pub mod restart;
pub mod supervisor;
