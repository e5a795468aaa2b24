//! Session setup for a process-wide trace subscriber: where the trace file
//! goes, how recorded units are labelled, which layers are attached, and the
//! handle that keeps the trace file's flush guard alive.

pub mod decimal;
pub mod trace_path;
pub mod label;
pub mod layers;
pub mod profiler;
