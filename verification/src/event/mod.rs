//! Event records handed to the consumer.

use vstd::prelude::*;
use crate::event::file::FileMsg;
use crate::event::process::ProcInfo;

pub mod file;
pub mod process;

verus! {

/// One record of the event channel: capture time and payload.
pub struct GenericEvent {
    /// Monotonic nanoseconds, stamped when the slot is reserved
    pub ktime: u64,
    pub event: Event,
}

/// Payload of a record. The tag of each variant is fixed.
#[derive(Clone, Debug)]
pub enum Event {
    /// 0 - 31 reserved for common events
    ProcessExec(ProcInfo),
    ProcessExit(ProcInfo),
    File(FileMsg),
}

/// ProcessExec message code
pub const MSG_PROCEXEC: u8 = 0;

/// ProcessExit message code
pub const MSG_PROCEXIT: u8 = 1;

/// File message code
pub const MSG_FILE: u8 = 2;

impl Event {
    /// The tag that identifies the variant in a record.
    pub open spec fn tag_of(self) -> u8 {
        match self {
            Event::ProcessExec(_) => MSG_PROCEXEC,
            Event::ProcessExit(_) => MSG_PROCEXIT,
            Event::File(_) => MSG_FILE,
        }
    }

    /// Whether every byte of the payload is zero.
    pub open spec fn is_blank(self) -> bool {
        match self {
            Event::ProcessExec(p) => p.is_blank(),
            Event::ProcessExit(p) => p.is_blank(),
            Event::File(f) => f.is_blank(),
        }
    }

    /// The tag that identifies the variant in a record.
    pub fn tag(&self) -> (r: u8)
        ensures
            r == self.tag_of(),
    {
        match self {
            Event::ProcessExec(_) => MSG_PROCEXEC,
            Event::ProcessExit(_) => MSG_PROCEXIT,
            Event::File(_) => MSG_FILE,
        }
    }
}

/// The tag of a record names the shape of its payload, and nothing else does.
pub proof fn tag_names_payload(event: Event)
    ensures
        event is ProcessExec <==> event.tag_of() == MSG_PROCEXEC,
        event is ProcessExit <==> event.tag_of() == MSG_PROCEXIT,
        event is File <==> event.tag_of() == MSG_FILE,
{
}

} // verus!
