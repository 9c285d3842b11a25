//! File-monitor configuration.

use vstd::prelude::*;
use crate::config::processmonitor::ProcessFilterMask;

verus! {

/// File-monitor configuration.
#[derive(Debug, Copy, Clone)]
pub struct Config {
    /// Filter events by process information
    pub filter_mask: ProcessFilterMask,
    /// Use deny list for process filtering
    pub deny_list: bool,
    /// Whether file events are exposed to the consumer
    pub expose_events: bool,
}

} // verus!
