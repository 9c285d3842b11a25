//! Probe configuration records.

pub mod filemonitor;
pub mod processmonitor;
