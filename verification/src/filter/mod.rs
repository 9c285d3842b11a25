//! Filters that decide which events are reported.

pub mod process;
