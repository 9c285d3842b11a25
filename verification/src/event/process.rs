//! Process event module

use vstd::prelude::*;
use crate::constants::{DOCKER_ID_LENGTH, MAX_ARGS_SIZE, MAX_FILENAME_SIZE, MAX_FILE_PATH};

verus! {

/// Process event
#[derive(Clone, Copy, Debug)]
pub struct ProcInfo {
    /// PID
    pub pid: u32,
    /// TID
    pub tid: u32,
    /// Parent PID
    pub ppid: u32,
    /// Task Creds
    pub creds: Cred,
    /// login UID
    pub auid: u32,
    /// if this event from clone
    pub clonned: bool,
    /// executable name
    pub filename: [u8; MAX_FILENAME_SIZE],
    /// full binary path
    pub binary_path: [u8; MAX_FILE_PATH],
    /// command line arguments without argv[0]
    pub args: [u8; MAX_ARGS_SIZE],
    /// Cgroup info
    pub cgroup: Cgroup,
}

/// Creds
#[derive(Clone, Copy, Debug)]
pub struct Cred {
    /// UID
    pub uid: u32,
    /// EUID
    pub euid: u32,
    pub cap_inheritable: u64,
    pub cap_permitted: u64,
    pub cap_effective: u64,
    pub secureexec: SecureExec,
}

/// Cgroup info
#[derive(Clone, Copy, Debug)]
pub struct Cgroup {
    pub cgroup_id: u64,
    pub cgroup_name: [u8; DOCKER_ID_LENGTH],
}

/// Marks of an exec that changed privileges.
#[derive(Clone, Copy, Debug, PartialEq, Eq, Structural)]
pub struct SecureExec {
    pub bits: u32,
}

/// The exec changed the user id.
pub const SETUID: u32 = 0b00000001;

/// The exec changed the group id.
pub const SETGID: u32 = 0b00000010;

/// The exec gained file capabilities.
pub const FILE_CAPS: u32 = 0b00000100;

/// Every bit that has a meaning in a `SecureExec`.
pub const SECURE_EXEC_ALL_BITS: u32 = 0b00000111;

impl SecureExec {
    /// Whether every bit of `other` is set in `self`.
    pub open spec fn has(self, other: SecureExec) -> bool {
        self.bits & other.bits == other.bits
    }

    /// The set with no bit.
    pub fn empty() -> (r: SecureExec)
        ensures
            r.bits == 0,
    {
        SecureExec { bits: 0 }
    }

    /// The raw bits.
    pub fn bits(&self) -> (r: u32)
        ensures
            r == self.bits,
    {
        self.bits
    }

    /// The set with the named bits of `bits`; unnamed bits are dropped.
    pub fn from_bits_truncate(bits: u32) -> (r: SecureExec)
        ensures
            r.bits == bits & SECURE_EXEC_ALL_BITS,
    {
        SecureExec { bits: bits & SECURE_EXEC_ALL_BITS }
    }

    /// Whether no bit is set.
    pub fn is_empty(&self) -> (r: bool)
        ensures
            r == (self.bits == 0),
    {
        self.bits == 0
    }

    /// Whether every bit of `other` is set in `self`.
    pub fn contains(&self, other: &SecureExec) -> (r: bool)
        ensures
            r == self.has(*other),
    {
        self.bits & other.bits == other.bits
    }

    /// The bits set in either set.
    pub fn union(self, other: SecureExec) -> (r: SecureExec)
        ensures
            r.bits == self.bits | other.bits,
    {
        SecureExec { bits: self.bits | other.bits }
    }
}

impl Cgroup {
    /// Whether every byte of the record is zero.
    pub open spec fn is_blank(self) -> bool {
        &&& self.cgroup_id == 0
        &&& forall|i: int| 0 <= i < DOCKER_ID_LENGTH ==> self.cgroup_name@[i] == 0
    }
}

impl Cred {
    /// Whether every byte of the record is zero.
    pub open spec fn is_blank(self) -> bool {
        &&& self.uid == 0
        &&& self.euid == 0
        &&& self.cap_inheritable == 0
        &&& self.cap_permitted == 0
        &&& self.cap_effective == 0
        &&& self.secureexec.bits == 0
    }
}

impl ProcInfo {
    /// Whether every byte of the record is zero.
    pub open spec fn is_blank(self) -> bool {
        &&& self.pid == 0
        &&& self.tid == 0
        &&& self.ppid == 0
        &&& self.creds.is_blank()
        &&& self.auid == 0
        &&& !self.clonned
        &&& forall|i: int| 0 <= i < MAX_FILENAME_SIZE ==> self.filename@[i] == 0
        &&& forall|i: int| 0 <= i < MAX_FILE_PATH ==> self.binary_path@[i] == 0
        &&& forall|i: int| 0 <= i < MAX_ARGS_SIZE ==> self.args@[i] == 0
        &&& self.cgroup.is_blank()
    }

    /// A record whose every byte is zero.
    pub fn zeroed() -> (r: ProcInfo)
        ensures
            r.is_blank(),
    {
        ProcInfo {
            pid: 0,
            tid: 0,
            ppid: 0,
            creds: Cred {
                uid: 0,
                euid: 0,
                cap_inheritable: 0,
                cap_permitted: 0,
                cap_effective: 0,
                secureexec: SecureExec { bits: 0 },
            },
            auid: 0,
            clonned: false,
            filename: [0u8; MAX_FILENAME_SIZE],
            binary_path: [0u8; MAX_FILE_PATH],
            args: [0u8; MAX_ARGS_SIZE],
            cgroup: Cgroup { cgroup_id: 0, cgroup_name: [0u8; DOCKER_ID_LENGTH] },
        }
    }
}

} // verus!
