//! A dead man's switch: run a child command and kill it once its liveness
//! evidence (a file's modification time, or bytes relayed from standard
//! input) has gone stale for longer than a configured age.
//!
//! The library holds every decision of the supervisor as verified code; the
//! caller performs the process and file system work it is told to do.

pub mod monitor;
pub mod supervisor;
pub mod timing;
