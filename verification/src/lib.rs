//! A mass HTTP request-smuggling scanner library.
//!
//! Targets are streamed through a bounded pool of concurrent probes while
//! the input ordering of results is preserved; findings are written
//! incrementally together with a checkpoint that allows an interrupted scan
//! to resume.  The probe families (`TrailMerge`, `TrailSmug`) encode
//! smuggling payload strategies and differential-response interpretation
//! as step-wise state machines: every decision the scanner takes lives in
//! this crate, while the asynchronous HTTP engine and the file system are
//! driven by the embedding program, which feeds their answers back in as
//! plain values.

pub mod checkpoint;
pub mod clzero;
pub mod executor;
pub mod probe;
pub mod protocol;
pub mod recorder;
pub mod scanner;
pub mod text;
pub mod trailmerge;
pub mod trailsmug;
