//! Process-monitor configuration and the identity filter mask.

use vstd::prelude::*;

verus! {

/// Process-monitor configuration.
#[derive(Debug, Copy, Clone)]
pub struct Config {
    /// Filter events by process information
    pub filter_mask: ProcessFilterMask,
    /// Use deny list for process filtering
    pub deny_list: bool,
}

/// Bit set that selects which identity attributes the filter checks.
/// The bit values are fixed: configuration written elsewhere relies on them.
#[derive(Clone, Debug, Copy, PartialEq, Eq, Structural)]
pub struct ProcessFilterMask {
    pub bits: u64,
}

/// Match the executable's name.
pub const BINARY_NAME: u64 = 0x0000000000000001;

/// Match the executable's full path.
pub const BINARY_PATH: u64 = 0x0000000000000002;

/// Match a prefix of the executable's path.
pub const BINARY_PATH_PREFIX: u64 = 0x0000000000000004;

/// Match the user id.
pub const UID: u64 = 0x0000000000000008;

/// Match the effective user id.
pub const EUID: u64 = 0x0000000000000010;

/// Match the login user id.
pub const AUID: u64 = 0x0000000000000020;

/// Match the effective capabilities.
pub const E_CAPS: u64 = 0x0000000000000040;

/// Every bit that has a meaning in a `ProcessFilterMask`.
pub const PROCESS_FILTER_ALL_BITS: u64 = 0x7f;

impl ProcessFilterMask {
    /// Whether every bit of `other` is set in `self`.
    pub open spec fn has(self, other: ProcessFilterMask) -> bool {
        self.bits & other.bits == other.bits
    }

    /// Whether the bits of `flag` are all set in `self`.
    pub open spec fn enables(self, flag: u64) -> bool {
        self.bits & flag == flag
    }

    /// Whether no bit is set.
    pub open spec fn none_set(self) -> bool {
        self.bits == 0
    }

    /// The mask with no bit set.
    pub fn empty() -> (r: ProcessFilterMask)
        ensures
            r.bits == 0,
    {
        ProcessFilterMask { bits: 0 }
    }

    /// The mask with every named bit set.
    pub fn all() -> (r: ProcessFilterMask)
        ensures
            r.bits == PROCESS_FILTER_ALL_BITS,
    {
        ProcessFilterMask { bits: PROCESS_FILTER_ALL_BITS }
    }

    /// The raw bits.
    pub fn bits(&self) -> (r: u64)
        ensures
            r == self.bits,
    {
        self.bits
    }

    /// The mask with exactly `bits`, if `bits` holds no unnamed bit.
    pub fn from_bits(bits: u64) -> (r: Option<ProcessFilterMask>)
        ensures
            r == if bits & !PROCESS_FILTER_ALL_BITS == 0 {
                Some(ProcessFilterMask { bits })
            } else {
                None
            },
    {
        if bits & !PROCESS_FILTER_ALL_BITS == 0 {
            Some(ProcessFilterMask { bits })
        } else {
            None
        }
    }

    /// The mask with the named bits of `bits`; unnamed bits are dropped.
    pub fn from_bits_truncate(bits: u64) -> (r: ProcessFilterMask)
        ensures
            r.bits == bits & PROCESS_FILTER_ALL_BITS,
    {
        ProcessFilterMask { bits: bits & PROCESS_FILTER_ALL_BITS }
    }

    /// Whether no bit is set.
    pub fn is_empty(&self) -> (r: bool)
        ensures
            r == self.none_set(),
    {
        self.bits == 0
    }

    /// Whether every bit of `other` is set in `self`.
    pub fn contains(&self, other: ProcessFilterMask) -> (r: bool)
        ensures
            r == self.has(other),
    {
        self.bits & other.bits == other.bits
    }

    /// The bits set in both masks.
    pub fn intersection(self, other: ProcessFilterMask) -> (r: ProcessFilterMask)
        ensures
            r.bits == self.bits & other.bits,
    {
        ProcessFilterMask { bits: self.bits & other.bits }
    }

    /// The bits set in either mask.
    pub fn union(self, other: ProcessFilterMask) -> (r: ProcessFilterMask)
        ensures
            r.bits == self.bits | other.bits,
    {
        ProcessFilterMask { bits: self.bits | other.bits }
    }
}

} // verus!
