//! The file-open probe: a chain of checks that ends in one record or none.

use vstd::prelude::*;
use crate::config::filemonitor::Config;
use crate::constants::{MAX_ARGS_SIZE, MAX_FILENAME_SIZE, MAX_FILE_PATH};
use crate::event::file::{FileMsg, HOOK_FILE_OPEN};
use crate::event::process::ProcInfo;
use crate::event::{Event, MSG_FILE};
use crate::event_map::{event_commit, rb_event_init, EventChannel};
use crate::filter::process::{verdict, verdict_of, FilterHits, ProcessFilter};
use crate::util::{bounded_copy, copied_proc, copy_proc, overlay, zeros, SnapshotReads};

verus! {

/// Mode bit of a file that was opened to be executed.
pub const FMODE_EXEC: u32 = 0x20;

/// What the kernel's file object gave for one open. Each field is `None`
/// where the read of it failed.
pub struct OpenedFile<'a> {
    /// Mode flags of the open file
    pub f_mode: Option<u32>,
    /// The file's canonical path, where it could be resolved
    pub path: Option<&'a [u8]>,
    /// Flags passed to open()
    pub f_flags: Option<u32>,
    /// Mode of the inode
    pub i_mode: Option<u16>,
    /// Owner of the inode
    pub i_uid: Option<u32>,
    /// Group of the inode
    pub i_gid: Option<u32>,
}

/// The process id in the upper half of a combined pid and thread id.
pub fn current_pid(pid_tgid: u64) -> (pid: u32)
    ensures
        pid == pid_tgid >> 32,
{
    assert(pid_tgid >> 32 <= 0xffff_ffff) by (bit_vector);
    (pid_tgid >> 32) as u32
}

/// The snapshot that a table with the entries `entries` holds for `pid`:
/// that of the newest entry under that key, if there is one.
pub open spec fn find(entries: Seq<(u32, ProcInfo)>, pid: u32) -> Option<ProcInfo>
    decreases entries.len(),
{
    if entries.len() == 0 {
        None
    } else if entries.last().0 == pid {
        Some(entries.last().1)
    } else {
        find(entries.drop_last(), pid)
    }
}

/// The process-info table: snapshots keyed by pid. Other probes fill it;
/// the file-open probe only reads it.
pub struct ProcTable {
    pub entries: Vec<(u32, ProcInfo)>,
}

impl ProcTable {
    /// The snapshot held for `pid`, if any.
    pub open spec fn snapshot_of(&self, pid: u32) -> Option<ProcInfo> {
        find(self.entries@, pid)
    }

    /// The empty table.
    pub fn new() -> (r: ProcTable)
        ensures
            r.entries@ == Seq::<(u32, ProcInfo)>::empty(),
    {
        ProcTable { entries: Vec::new() }
    }

    /// Puts `info` under `pid`, in place of what was there.
    pub fn insert(&mut self, pid: u32, info: ProcInfo)
        ensures
            final(self).entries@ == old(self).entries@.push((pid, info)),
            final(self).snapshot_of(pid) == Some(info),
            forall|other: u32|
                other != pid ==> final(self).snapshot_of(other) == old(self).snapshot_of(other),
    {
        self.entries.push((pid, info));
        proof {
            assert(self.entries@.drop_last() =~= old(self).entries@);
        }
    }

    /// The snapshot held for `pid`, if any.
    pub fn get(&self, pid: u32) -> (r: Option<&ProcInfo>)
        ensures
            deref_proc(r) == self.snapshot_of(pid),
    {
        let mut i: usize = self.entries.len();
        proof {
            assert(self.entries@.take(i as int) =~= self.entries@);
        }
        while i > 0
            invariant
                i <= self.entries@.len(),
                find(self.entries@, pid) == find(self.entries@.take(i as int), pid),
            decreases i,
        {
            i -= 1;
            proof {
                assert(self.entries@.take(i + 1).drop_last() =~= self.entries@.take(i as int));
            }
            if self.entries[i].0 == pid {
                return Some(&self.entries[i].1);
            }
        }
        None
    }
}

/// A pid under which the table has no entry has no snapshot.
pub proof fn absent_pid_has_no_snapshot(entries: Seq<(u32, ProcInfo)>, pid: u32)
    requires
        forall|i: int| 0 <= i < entries.len() ==> entries[i].0 != pid,
    ensures
        find(entries, pid) is None,
    decreases entries.len(),
{
    if entries.len() > 0 {
        absent_pid_has_no_snapshot(entries.drop_last(), pid);
    }
}

/// The snapshot of the process that raised the event: the table's entry
/// for the pid in the upper half of `pid_tgid`.
pub open spec fn caller_of(procs: ProcTable, pid_tgid: u64) -> Option<ProcInfo> {
    procs.snapshot_of((pid_tgid >> 32) as u32)
}

/// Whether a process with the lookup outcomes `hits` is reported: with an
/// empty mask always; else where the filter's verdict is to pass, or, with
/// a deny list, where it is not.
pub open spec fn allows_hits(config: Config, hits: FilterHits) -> bool {
    if config.filter_mask.none_set() {
        true
    } else if config.deny_list {
        !verdict_of(config.filter_mask, hits)
    } else {
        verdict_of(config.filter_mask, hits)
    }
}

/// Whether the events of `proc` are reported under `config`.
pub open spec fn allows(config: Config, filter: ProcessFilter, proc: ProcInfo) -> bool {
    allows_hits(config, filter.hits_of(proc))
}

/// Whether a process is reported under `config`, for a caller that made the
/// lookups itself.
pub fn accept_hits(config: &Config, hits: &FilterHits) -> (r: bool)
    ensures
        r == allows_hits(*config, *hits),
{
    if !config.filter_mask.is_empty() {
        if config.deny_list {
            !verdict(config.filter_mask, hits)
        } else {
            verdict(config.filter_mask, hits)
        }
    } else {
        true
    }
}

/// Whether the events of `proc` are reported under `config`.
pub fn accept(config: &Config, filter: &ProcessFilter, proc: &ProcInfo) -> (r: bool)
    ensures
        r == allows(*config, *filter, *proc),
{
    if !config.filter_mask.is_empty() {
        if config.deny_list {
            !filter.filter(config.filter_mask, proc)
        } else {
            filter.filter(config.filter_mask, proc)
        }
    } else {
        true
    }
}

/// Whether a file with these mode flags was opened to be executed.
pub open spec fn exec_mode(f_mode: u32) -> bool {
    f_mode & FMODE_EXEC != 0
}

/// Whether a file with these mode flags was opened to be executed.
pub fn is_exec_mode(f_mode: u32) -> (r: bool)
    ensures
        r == exec_mode(f_mode),
{
    f_mode & FMODE_EXEC != 0
}

/// Whether the file is known to have been opened to be executed.
pub open spec fn is_exec_open(file: OpenedFile) -> bool {
    file.f_mode is Some && exec_mode(file.f_mode->0)
}

/// Whether the reads get as far as the file's path: the mode flags were
/// read and the file was not opened to be executed.
pub open spec fn reaches_path(file: OpenedFile) -> bool {
    file.f_mode is Some && !exec_mode(file.f_mode->0)
}

/// Whether the file's data makes a record: it was not opened to be
/// executed, and every read but that of the path succeeded.
pub open spec fn open_recordable(file: OpenedFile) -> bool {
    &&& reaches_path(file)
    &&& file.f_flags is Some
    &&& file.i_mode is Some
    &&& file.i_uid is Some
    &&& file.i_gid is Some
}

/// The path buffer after the file's path was resolved into it.
pub open spec fn resolved_path(file: OpenedFile, before: Seq<u8>) -> Seq<u8> {
    match file.path {
        Some(p) => overlay(p@, before),
        None => before,
    }
}

/// `after` is the complete record of the open of `file` by `proc`, written
/// over `before`.
pub open spec fn open_recorded(
    before: FileMsg,
    after: FileMsg,
    proc: ProcInfo,
    reads: SnapshotReads,
    file: OpenedFile,
) -> bool {
    &&& after.process == copied_proc(proc, before.process, reads)
    &&& after.hook == HOOK_FILE_OPEN
    &&& after.path@ == resolved_path(file, before.path@)
    &&& after.name == before.name
    &&& Some(after.flags) == file.f_flags
    &&& Some(after.uid) == file.i_uid
    &&& Some(after.gid) == file.i_gid
    &&& Some(after.i_mode) == file.i_mode
}

/// `after` is what an open that makes no record leaves of `before`: the
/// hook is stamped, and each of path, flags, mode and owner is written
/// where every read before it succeeded and the file was not opened to be
/// executed.
pub open spec fn open_abandoned(before: FileMsg, after: FileMsg, file: OpenedFile) -> bool {
    let got_flags = reaches_path(file) && file.f_flags is Some;
    let got_mode = got_flags && file.i_mode is Some;
    let got_uid = got_mode && file.i_uid is Some;
    &&& after.process == before.process
    &&& after.hook == HOOK_FILE_OPEN
    &&& after.name == before.name
    &&& after.gid == before.gid
    &&& after.path@ == if reaches_path(file) {
        resolved_path(file, before.path@)
    } else {
        before.path@
    }
    &&& after.flags == if got_flags {
        file.f_flags->0
    } else {
        before.flags
    }
    &&& after.i_mode == if got_mode {
        file.i_mode->0
    } else {
        before.i_mode
    }
    &&& after.uid == if got_uid {
        file.i_uid->0
    } else {
        before.uid
    }
}

/// `after` is the complete record of the open of `file` by `proc`, written
/// into a cleared slot: what the open does not write is zero.
pub open spec fn clean_open_record(
    after: FileMsg,
    proc: ProcInfo,
    reads: SnapshotReads,
    file: OpenedFile,
) -> bool {
    &&& after.process.pid == proc.pid
    &&& after.process.tid == proc.tid
    &&& after.process.ppid == proc.ppid
    &&& after.process.creds == proc.creds
    &&& after.process.auid == proc.auid
    &&& !after.process.clonned
    &&& after.process.filename@ == if reads.filename {
        proc.filename@
    } else {
        zeros(MAX_FILENAME_SIZE as nat)
    }
    &&& after.process.binary_path@ == if reads.binary_path {
        proc.binary_path@
    } else {
        zeros(MAX_FILE_PATH as nat)
    }
    &&& after.process.args@ == if reads.args {
        proc.args@
    } else {
        zeros(MAX_ARGS_SIZE as nat)
    }
    &&& after.process.cgroup == proc.cgroup
    &&& after.hook == HOOK_FILE_OPEN
    &&& after.path@ == resolved_path(file, zeros(MAX_FILE_PATH as nat))
    &&& after.name@ == zeros(MAX_FILENAME_SIZE as nat)
    &&& Some(after.flags) == file.f_flags
    &&& Some(after.uid) == file.i_uid
    &&& Some(after.gid) == file.i_gid
    &&& Some(after.i_mode) == file.i_mode
}

/// `after` is what an open that makes no record leaves of a cleared slot.
pub open spec fn clean_open_abandoned(after: FileMsg, file: OpenedFile) -> bool {
    let got_flags = reaches_path(file) && file.f_flags is Some;
    let got_mode = got_flags && file.i_mode is Some;
    let got_uid = got_mode && file.i_uid is Some;
    &&& after.process.is_blank()
    &&& after.hook == HOOK_FILE_OPEN
    &&& after.name@ == zeros(MAX_FILENAME_SIZE as nat)
    &&& after.gid == 0
    &&& after.path@ == if reaches_path(file) {
        resolved_path(file, zeros(MAX_FILE_PATH as nat))
    } else {
        zeros(MAX_FILE_PATH as nat)
    }
    &&& after.flags == if got_flags {
        file.f_flags->0
    } else {
        0
    }
    &&& after.i_mode == if got_mode {
        file.i_mode->0
    } else {
        0
    }
    &&& after.uid == if got_uid {
        file.i_uid->0
    } else {
        0
    }
}

/// A record written over a cleared slot holds nothing but what the open
/// wrote and zeros.
pub proof fn recorded_over_blank(
    before: FileMsg,
    after: FileMsg,
    proc: ProcInfo,
    reads: SnapshotReads,
    file: OpenedFile,
)
    requires
        before.is_blank(),
        open_recorded(before, after, proc, reads, file),
    ensures
        clean_open_record(after, proc, reads, file),
{
    assert(before.path@ =~= zeros(MAX_FILE_PATH as nat));
    assert(before.name@ =~= zeros(MAX_FILENAME_SIZE as nat));
    assert(before.process.filename@ =~= zeros(MAX_FILENAME_SIZE as nat));
    assert(before.process.binary_path@ =~= zeros(MAX_FILE_PATH as nat));
    assert(before.process.args@ =~= zeros(MAX_ARGS_SIZE as nat));
}

/// What an abandoned open leaves of a cleared slot holds nothing but what
/// the open wrote and zeros.
pub proof fn abandoned_over_blank(before: FileMsg, after: FileMsg, file: OpenedFile)
    requires
        before.is_blank(),
        open_abandoned(before, after, file),
    ensures
        clean_open_abandoned(after, file),
{
    assert(before.path@ =~= zeros(MAX_FILE_PATH as nat));
    assert(before.name@ =~= zeros(MAX_FILENAME_SIZE as nat));
}

/// Fills the record of one open by a process that passed the filter.
///
/// Succeeds with 0 exactly where the file was not opened to be executed and
/// every read but that of the path succeeded; fails with 0 otherwise, the
/// record then being left half written for the caller to discard.
pub fn fill_open(event: &mut FileMsg, proc: &ProcInfo, reads: &SnapshotReads, file: &OpenedFile)
    -> (r: Result<i32, i32>)
    ensures
        r is Ok <==> open_recordable(*file),
        is_exec_open(*file) ==> r is Err,
        match r {
            Ok(code) => code == 0 && open_recorded(
                *old(event),
                *final(event),
                *proc,
                *reads,
                *file,
            ),
            Err(code) => code == 0 && open_abandoned(*old(event), *final(event), *file),
        },
{
    event.hook = HOOK_FILE_OPEN;
    let Some(f_mode) = file.f_mode else {
        return Err(0);
    };
    if is_exec_mode(f_mode) {
        return Err(0);
    }
    match file.path {
        Some(p) => {
            bounded_copy(p, &mut event.path);
        },
        None => {},
    }
    let Some(f_flags) = file.f_flags else {
        return Err(0);
    };
    event.flags = f_flags;
    let Some(i_mode) = file.i_mode else {
        return Err(0);
    };
    event.i_mode = i_mode;
    let Some(uid) = file.i_uid else {
        return Err(0);
    };
    event.uid = uid;
    let Some(gid) = file.i_gid else {
        return Err(0);
    };
    event.gid = gid;
    copy_proc(proc, &mut event.process, reads);
    Ok(0)
}

/// Whether an open gets as far as writing into the record: the
/// configuration is there, the process is known, and it is reported.
pub open spec fn open_reaches_record(
    config: Option<Config>,
    proc: Option<ProcInfo>,
    filter: ProcessFilter,
) -> bool {
    &&& config is Some
    &&& proc is Some
    &&& allows(config->0, filter, proc->0)
}

/// Whether an open makes a record: it gets as far as the record, and the
/// file's data makes one.
pub open spec fn open_passes(
    config: Option<Config>,
    proc: Option<ProcInfo>,
    filter: ProcessFilter,
    file: OpenedFile,
) -> bool {
    open_reaches_record(config, proc, filter) && open_recordable(file)
}

/// The configuration behind an optional reference.
pub open spec fn deref_config(config: Option<&Config>) -> Option<Config> {
    match config {
        Some(c) => Some(*c),
        None => None,
    }
}

/// The snapshot behind an optional reference.
pub open spec fn deref_proc(proc: Option<&ProcInfo>) -> Option<ProcInfo> {
    match proc {
        Some(p) => Some(*p),
        None => None,
    }
}

/// Handles one file-open event: `config` is the file-monitor configuration
/// if it could be loaded, `pid_tgid` names the calling process, whose
/// snapshot is looked up in `procs`, `reads` says which buffers of that
/// snapshot can be read, and `file` is what the kernel gave for the file.
///
/// Succeeds with 0, the record complete, exactly where the slot is one for
/// a file event and `open_passes` holds. Fails with 0 otherwise: with the
/// record untouched where the configuration or the snapshot is missing, the
/// slot is of another kind or the process is filtered out; half written
/// where the file's data fails.
pub fn try_open(
    config: Option<&Config>,
    event: &mut Event,
    pid_tgid: u64,
    procs: &ProcTable,
    reads: &SnapshotReads,
    filter: &ProcessFilter,
    file: &OpenedFile,
) -> (r: Result<i32, i32>)
    ensures
        r is Ok <==> *old(event) is File && open_passes(
            deref_config(config),
            caller_of(*procs, pid_tgid),
            *filter,
            *file,
        ),
        caller_of(*procs, pid_tgid) is None ==> r is Err,
        is_exec_open(*file) ==> r is Err,
        final(event).tag_of() == old(event).tag_of(),
        match r {
            Ok(code) => code == 0 && open_recorded(
                old(event)->File_0,
                final(event)->File_0,
                caller_of(*procs, pid_tgid)->0,
                *reads,
                *file,
            ),
            Err(code) => code == 0 && if *old(event) is File && open_reaches_record(
                deref_config(config),
                caller_of(*procs, pid_tgid),
                *filter,
            ) {
                open_abandoned(old(event)->File_0, final(event)->File_0, *file)
            } else {
                *final(event) == *old(event)
            },
        },
{
    let Some(config) = config else {
        return Err(0);
    };
    match event {
        Event::File(msg) => {
            let pid = current_pid(pid_tgid);
            let Some(proc) = procs.get(pid) else {
                return Err(0);
            };
            if !accept(config, filter, proc) {
                return Err(0);
            }
            fill_open(msg, proc, reads, file)
        },
        _ => Err(0),
    }
}

/// Whether one file-open event puts a record into the channel: a slot is
/// free, and the open passes every check.
pub open spec fn open_emits(
    channel: EventChannel,
    config: Option<Config>,
    proc: Option<ProcInfo>,
    filter: ProcessFilter,
    file: OpenedFile,
) -> bool {
    !channel.is_full() && open_passes(config, proc, filter, file)
}

/// Captures one file-open event of the process `pid_tgid` at time `ktime`:
/// reserves a cleared slot, lets `try_open` fill it, and submits the slot
/// where that succeeded, discards it where it failed. Returns 0.
///
/// The consumer sees exactly one more record where `open_emits` holds. That
/// record holds what the open wrote and zeros elsewhere, whatever the slot's
/// memory held before. Otherwise the consumer sees what it saw before.
pub fn file_open_capture(
    channel: &mut EventChannel,
    ktime: u64,
    config: Option<&Config>,
    pid_tgid: u64,
    procs: &ProcTable,
    reads: &SnapshotReads,
    filter: &ProcessFilter,
    file: &OpenedFile,
) -> (r: i32)
    requires
        old(channel).wf(),
    ensures
        r == 0,
        final(channel).wf(),
        final(channel).capacity == old(channel).capacity,
        final(channel).pending == old(channel).pending,
        caller_of(*procs, pid_tgid) is None ==> final(channel).published() == old(
            channel,
        ).published(),
        is_exec_open(*file) ==> final(channel).published() == old(channel).published(),
        if open_emits(
            *old(channel),
            deref_config(config),
            caller_of(*procs, pid_tgid),
            *filter,
            *file,
        ) {
            &&& final(channel).published().len() == old(channel).published().len() + 1
            &&& final(channel).published().drop_last() == old(channel).published()
            &&& final(channel).published().last().ktime == ktime
            &&& final(channel).published().last().event is File
            &&& clean_open_record(
                final(channel).published().last().event->File_0,
                caller_of(*procs, pid_tgid)->0,
                *reads,
                *file,
            )
            &&& final(channel).residue == final(channel).published().last().event->File_0
        } else {
            &&& final(channel).published() == old(channel).published()
            &&& old(channel).is_full() ==> *final(channel) == *old(channel)
            &&& !old(channel).is_full() ==> if open_reaches_record(
                deref_config(config),
                caller_of(*procs, pid_tgid),
                *filter,
            ) {
                clean_open_abandoned(final(channel).residue, *file)
            } else {
                final(channel).residue.is_blank()
            }
        },
{
    let Ok(mut slot) = rb_event_init(channel, MSG_FILE, true, ktime) else {
        return 0;
    };
    let ghost cleared = slot.record.event->File_0;
    let outcome = try_open(config, &mut slot.record.event, pid_tgid, procs, reads, filter, file);
    proof {
        assert(old(channel).published().push(slot.record).drop_last() =~= old(
            channel,
        ).published());
        if outcome is Ok {
            recorded_over_blank(
                cleared,
                slot.record.event->File_0,
                caller_of(*procs, pid_tgid)->0,
                *reads,
                *file,
            );
        } else if open_reaches_record(
            deref_config(config),
            caller_of(*procs, pid_tgid),
            *filter,
        ) {
            abandoned_over_blank(cleared, slot.record.event->File_0, *file);
        }
    }
    event_commit(channel, slot, outcome)
}

/// With a mask that is not empty, the decision with the deny list is the
/// negation of the decision without it, whatever the lookups found.
pub proof fn deny_list_inverts_hits(config: Config, hits: FilterHits)
    requires
        !config.filter_mask.none_set(),
    ensures
        allows_hits(Config { deny_list: true, ..config }, hits) == !allows_hits(
            Config { deny_list: false, ..config },
            hits,
        ),
{
}

/// Under one configuration with a mask that is not empty, one filter and
/// one process, the decision with the deny list is the negation of the
/// decision without it.
pub proof fn deny_list_inverts(config: Config, filter: ProcessFilter, proc: ProcInfo)
    requires
        !config.filter_mask.none_set(),
    ensures
        allows(Config { deny_list: true, ..config }, filter, proc) == !allows(
            Config { deny_list: false, ..config },
            filter,
            proc,
        ),
{
}

/// With an empty mask every process is reported, with or without the deny
/// list.
pub proof fn empty_mask_allows(config: Config, filter: ProcessFilter, proc: ProcInfo)
    requires
        config.filter_mask.none_set(),
    ensures
        allows(config, filter, proc),
{
}

} // verus!
