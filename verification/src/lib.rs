//! Verified core of a desktop PDF-compression front end.
//!
//! The library models everything the front end decides on its own: the
//! compression presets and their command-line tokens, the rule that derives
//! an output path from a picked input path, the exact argument vector handed
//! to the external PDF-processing tool, and the lifecycle of a compression
//! job (idle, running, done, failed).  The surrounding binary owns the event
//! loop, the file dialog and the child process; it feeds plain values into
//! these functions and acts on what they return.

pub mod args;
pub mod decimal;
pub mod job;
pub mod paths;
pub mod preset;
pub mod session;
