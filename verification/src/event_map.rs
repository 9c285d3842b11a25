//! The event channel: one bounded ring of fixed-size slots, filled by
//! reserve, then submit or discard.

use vstd::prelude::*;
use crate::event::file::FileMsg;
use crate::event::{Event, GenericEvent, MSG_FILE, MSG_PROCEXEC, MSG_PROCEXIT};

verus! {

/// A bounded channel of event records.
///
/// `records` holds what was submitted and not yet consumed, oldest first.
/// `pending` counts the slots that are reserved and neither submitted nor
/// discarded. `residue` is what the memory of the next slot holds: the
/// payload of the slot that was submitted or discarded last, or zeros in a
/// new channel.
pub struct EventChannel {
    pub capacity: usize,
    pub records: Vec<GenericEvent>,
    pub pending: usize,
    pub residue: FileMsg,
}

/// A reserved slot. It reaches the consumer only through `submit`.
pub struct Slot {
    pub record: GenericEvent,
}

/// The payload of the variant that `msg_code` names, laid over the slot
/// memory `payload`. Both process variants use the leading process record.
pub open spec fn shape(msg_code: u8, payload: FileMsg) -> Event {
    if msg_code == MSG_PROCEXEC {
        Event::ProcessExec(payload.process)
    } else if msg_code == MSG_PROCEXIT {
        Event::ProcessExit(payload.process)
    } else {
        Event::File(payload)
    }
}

/// The slot memory that holds `event`, where `tail` is what the memory held
/// behind a process record.
pub open spec fn slot_memory(event: Event, tail: FileMsg) -> FileMsg {
    match event {
        Event::ProcessExec(p) => FileMsg { process: p, ..tail },
        Event::ProcessExit(p) => FileMsg { process: p, ..tail },
        Event::File(f) => f,
    }
}

impl EventChannel {
    /// The slots in use never exceed the capacity.
    pub open spec fn wf(&self) -> bool {
        self.records@.len() + self.pending <= self.capacity
    }

    /// Whether no slot is free.
    pub open spec fn is_full(&self) -> bool {
        self.records@.len() + self.pending >= self.capacity
    }

    /// The records a consumer can see, oldest first.
    pub open spec fn published(&self) -> Seq<GenericEvent> {
        self.records@
    }

    /// An empty channel of `capacity` slots, its memory zero.
    pub fn new(capacity: usize) -> (r: EventChannel)
        ensures
            r.wf(),
            r.capacity == capacity,
            r.published() == Seq::<GenericEvent>::empty(),
            r.pending == 0,
            r.residue.is_blank(),
    {
        EventChannel { capacity, records: Vec::new(), pending: 0, residue: FileMsg::zeroed() }
    }

    /// The number of records a consumer can see.
    pub fn len(&self) -> (r: usize)
        ensures
            r == self.published().len(),
    {
        self.records.len()
    }

    /// The `i`-th record a consumer can see, oldest first.
    pub fn get(&self, i: usize) -> (r: Option<&GenericEvent>)
        ensures
            r == if i < self.published().len() {
                Some(&self.published()[i as int])
            } else {
                None
            },
    {
        if i < self.records.len() {
            Some(&self.records[i])
        } else {
            None
        }
    }

    /// Takes the oldest record out, as the consumer does, and frees its slot.
    pub fn consume(&mut self) -> (r: Option<GenericEvent>)
        requires
            old(self).wf(),
        ensures
            final(self).wf(),
            final(self).capacity == old(self).capacity,
            final(self).pending == old(self).pending,
            final(self).residue == old(self).residue,
            old(self).published().len() == 0 ==> r is None && final(self).published() == old(
                self,
            ).published(),
            old(self).published().len() > 0 ==> r == Some(old(self).published()[0])
                && final(self).published() == old(self).published().remove(0),
    {
        if self.records.len() == 0 {
            None
        } else {
            Some(self.records.remove(0))
        }
    }

    /// Leaves the payload of `event` behind as the slot memory.
    fn keep_memory(&mut self, event: &Event)
        ensures
            final(self).residue == slot_memory(*event, old(self).residue),
            final(self).capacity == old(self).capacity,
            final(self).records == old(self).records,
            final(self).pending == old(self).pending,
    {
        match event {
            Event::ProcessExec(p) => {
                self.residue.process = *p;
            },
            Event::ProcessExit(p) => {
                self.residue.process = *p;
            },
            Event::File(f) => {
                self.residue = *f;
            },
        }
    }

    /// Publishes a reserved slot: its record becomes the newest one the
    /// consumer can see, as it stands. The slot's memory keeps the payload.
    pub fn submit(&mut self, slot: Slot)
        requires
            old(self).wf(),
            old(self).pending > 0,
        ensures
            final(self).wf(),
            final(self).published() == old(self).published().push(slot.record),
            final(self).capacity == old(self).capacity,
            final(self).pending == old(self).pending - 1,
            final(self).residue == slot_memory(slot.record.event, old(self).residue),
    {
        self.pending = self.pending - 1;
        self.keep_memory(&slot.record.event);
        self.records.push(slot.record);
    }

    /// Releases a reserved slot. The consumer sees nothing of it; what was
    /// written stays behind in the slot's memory.
    pub fn discard(&mut self, slot: Slot)
        requires
            old(self).wf(),
            old(self).pending > 0,
        ensures
            final(self).wf(),
            final(self).published() == old(self).published(),
            final(self).capacity == old(self).capacity,
            final(self).pending == old(self).pending - 1,
            final(self).residue == slot_memory(slot.record.event, old(self).residue),
    {
        self.pending = self.pending - 1;
        self.keep_memory(&slot.record.event);
    }
}

/// Reserves a slot for an event of the kind `msg_code` and stamps it with
/// `ktime` and the kind's tag.
///
/// Fails with 0, and changes nothing, when no slot is free or `msg_code`
/// names no kind of event. With `zero` the whole slot is cleared first;
/// without it the payload is what the slot's memory held.
pub fn rb_event_init(channel: &mut EventChannel, msg_code: u8, zero: bool, ktime: u64) -> (r:
    Result<Slot, i32>)
    requires
        old(channel).wf(),
    ensures
        final(channel).wf(),
        final(channel).capacity == old(channel).capacity,
        final(channel).published() == old(channel).published(),
        r is Ok <==> !old(channel).is_full() && msg_code <= MSG_FILE,
        match r {
            Err(code) => code == 0 && *final(channel) == *old(channel),
            Ok(slot) => {
                &&& final(channel).pending == old(channel).pending + 1
                &&& final(channel).residue == old(channel).residue
                &&& slot.record.ktime == ktime
                &&& slot.record.event.tag_of() == msg_code
                &&& zero ==> slot.record.event.is_blank()
                &&& !zero ==> slot.record.event == shape(msg_code, old(channel).residue)
            },
        },
{
    if msg_code > MSG_FILE || channel.records.len() >= channel.capacity || channel.pending
        >= channel.capacity - channel.records.len() {
        return Err(0);
    }
    let payload = if zero {
        FileMsg::zeroed()
    } else {
        channel.residue
    };
    channel.pending = channel.pending + 1;
    let event = if msg_code == MSG_PROCEXEC {
        Event::ProcessExec(payload.process)
    } else if msg_code == MSG_PROCEXIT {
        Event::ProcessExit(payload.process)
    } else {
        Event::File(payload)
    };
    Ok(Slot { record: GenericEvent { ktime, event } })
}

/// Ends a reservation by what the handler of the slot returned: a slot
/// whose handler succeeded is submitted, any other is discarded. Returns
/// the handler's code.
pub fn event_commit(channel: &mut EventChannel, slot: Slot, outcome: Result<i32, i32>) -> (ret: i32)
    requires
        old(channel).wf(),
        old(channel).pending > 0,
    ensures
        final(channel).wf(),
        final(channel).capacity == old(channel).capacity,
        final(channel).pending == old(channel).pending - 1,
        match outcome {
            Ok(code) => {
                &&& ret == code
                &&& final(channel).published() == old(channel).published().push(slot.record)
            },
            Err(code) => {
                &&& ret == code
                &&& final(channel).published() == old(channel).published()
            },
        },
        final(channel).residue == slot_memory(slot.record.event, old(channel).residue),
{
    match outcome {
        Ok(ret) => {
            channel.submit(slot);
            ret
        },
        Err(ret) => {
            channel.discard(slot);
            ret
        },
    }
}

} // verus!
