//! File event module

use vstd::prelude::*;
use crate::constants::{MAX_FILENAME_SIZE, MAX_FILE_PATH};
use crate::event::process::ProcInfo;

verus! {

/// File open/mmap, etc. event
#[derive(Clone, Copy, Debug)]
pub struct FileMsg {
    pub process: ProcInfo,
    pub hook: u8,
    /// full path or full dir path for unlink
    /// or mount path
    pub path: [u8; MAX_FILE_PATH],
    /// file/device name
    pub name: [u8; MAX_FILENAME_SIZE],
    /// flags passed to open()
    /// or mount flags from sb_mount()
    pub flags: u32,
    /// File owner UID
    pub uid: u32,
    /// Group owner GID
    pub gid: u32,
    /// i_mode
    pub i_mode: u16,
}

pub const HOOK_FILE_OPEN: u8 = 0;

pub const HOOK_PATH_TRUNCATE: u8 = 1;

pub const HOOK_PATH_UNLINK: u8 = 2;

pub const HOOK_PATH_CHMOD: u8 = 3;

pub const HOOK_PATH_CHOWN: u8 = 4;

pub const HOOK_SB_MOUNT: u8 = 5;

impl FileMsg {
    /// Whether every byte of the record is zero.
    pub open spec fn is_blank(self) -> bool {
        &&& self.process.is_blank()
        &&& self.hook == 0
        &&& forall|i: int| 0 <= i < MAX_FILE_PATH ==> self.path@[i] == 0
        &&& forall|i: int| 0 <= i < MAX_FILENAME_SIZE ==> self.name@[i] == 0
        &&& self.flags == 0
        &&& self.uid == 0
        &&& self.gid == 0
        &&& self.i_mode == 0
    }

    /// A record whose every byte is zero.
    pub fn zeroed() -> (r: FileMsg)
        ensures
            r.is_blank(),
    {
        FileMsg {
            process: ProcInfo::zeroed(),
            hook: 0,
            path: [0u8; MAX_FILE_PATH],
            name: [0u8; MAX_FILENAME_SIZE],
            flags: 0,
            uid: 0,
            gid: 0,
            i_mode: 0,
        }
    }
}

} // verus!
