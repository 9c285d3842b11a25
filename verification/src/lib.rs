//! Capture-and-filter core of a host security-monitoring agent: the event
//! channel, the process identity filter and the file-open probe, written
//! over plain values so that every decision is machine-checked.

pub mod config;
pub mod constants;
pub mod event;
pub mod util;
pub mod filter;
pub mod event_map;
pub mod system_observ;
