//! Verified core of a command timer: the records it keeps about a finished
//! child process, the rules that turn operating-system accounting data into
//! those records, and the exact text of the report.

pub mod digits;
pub mod timespan;
pub mod rounding;
pub mod format;
pub mod usage;
pub mod procstat;
pub mod command;
pub mod error;
pub mod outcome;
pub mod controller;
pub mod winprobe;
pub mod report;
pub mod interrupt;
