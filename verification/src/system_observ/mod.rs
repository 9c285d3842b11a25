//! Probes on system activity.

pub mod file;
