//! Bounds-checked copies of process snapshots.

use vstd::prelude::*;
use crate::event::process::ProcInfo;

verus! {

/// What `bounded_copy` leaves in a buffer that held `before`: the first
/// bytes of `src`, as many as fit, then the bytes the buffer held already.
pub open spec fn overlay(src: Seq<u8>, before: Seq<u8>) -> Seq<u8> {
    Seq::new(before.len(), |i: int| if i < src.len() { src[i] } else { before[i] })
}

/// Copies `src` into `dst` and never writes past the end of `dst`: what does
/// not fit is cut off, and what `src` does not reach keeps its old content.
/// Returns the number of bytes written.
pub fn bounded_copy<const N: usize>(src: &[u8], dst: &mut [u8; N]) -> (written: usize)
    ensures
        final(dst)@ == overlay(src@, old(dst)@),
        written == if src@.len() < N { src@.len() } else { N as nat },
        src@.len() >= N ==> final(dst)@ == src@.subrange(0, N as int),
{
    let mut i: usize = 0;
    while i < N && i < src.len()
        invariant
            i <= N,
            i <= src@.len(),
            forall|j: int| 0 <= j < i ==> dst@[j] == src@[j],
            forall|j: int| i <= j < N ==> dst@[j] == old(dst)@[j],
        decreases N - i,
    {
        dst[i] = src[i];
        i += 1;
    }
    proof {
        assert(dst@ =~= overlay(src@, old(dst)@));
        if src@.len() >= N {
            assert(dst@ =~= src@.subrange(0, N as int));
        }
    }
    i
}

/// A copy never grows or shrinks the buffer, whatever the source holds.
pub proof fn overlay_keeps_length(src: Seq<u8>, before: Seq<u8>)
    ensures
        overlay(src, before).len() == before.len(),
{
}

/// A source at least as long as the buffer fills it with its own first
/// bytes, and nothing of the source beyond the buffer's length is kept.
pub proof fn overlay_of_long_source(src: Seq<u8>, before: Seq<u8>)
    requires
        src.len() >= before.len(),
    ensures
        overlay(src, before) == src.subrange(0, before.len() as int),
{
    assert(overlay(src, before) =~= src.subrange(0, before.len() as int));
}

/// `n` zero bytes.
pub open spec fn zeros(n: nat) -> Seq<u8> {
    Seq::new(n, |i: int| 0u8)
}

/// Which of a snapshot's three byte buffers can be read where they lie.
/// A buffer that cannot be read is not copied.
pub struct SnapshotReads {
    pub filename: bool,
    pub args: bool,
    pub binary_path: bool,
}

/// The snapshot that `copy_proc` leaves in a destination that held `before`:
/// the scalars, credentials and cgroup of `src`; each byte buffer of `src`
/// that could be read, and for the others what the destination had; and the
/// destination's own clone flag, which is not copied.
pub open spec fn copied_proc(src: ProcInfo, before: ProcInfo, reads: SnapshotReads) -> ProcInfo {
    ProcInfo {
        pid: src.pid,
        tid: src.tid,
        ppid: src.ppid,
        creds: src.creds,
        auid: src.auid,
        clonned: before.clonned,
        filename: if reads.filename {
            src.filename
        } else {
            before.filename
        },
        binary_path: if reads.binary_path {
            src.binary_path
        } else {
            before.binary_path
        },
        args: if reads.args {
            src.args
        } else {
            before.args
        },
        cgroup: src.cgroup,
    }
}

/// Copies a process snapshot into an event. Scalars, credentials and cgroup
/// are copied by value. Each of the three byte buffers goes through
/// `bounded_copy` where `reads` says it can be read; a buffer that cannot
/// is passed over without an error and the destination keeps what it had.
/// The clone flag of the destination is left as it was.
pub fn copy_proc(src: &ProcInfo, dst: &mut ProcInfo, reads: &SnapshotReads)
    ensures
        *final(dst) == copied_proc(*src, *old(dst), *reads),
{
    dst.pid = src.pid;
    dst.tid = src.tid;
    dst.ppid = src.ppid;
    dst.creds = src.creds;
    dst.auid = src.auid;
    dst.cgroup = src.cgroup;
    if reads.filename {
        bounded_copy(src.filename.as_slice(), &mut dst.filename);
    }
    if reads.args {
        bounded_copy(src.args.as_slice(), &mut dst.args);
    }
    if reads.binary_path {
        bounded_copy(src.binary_path.as_slice(), &mut dst.binary_path);
    }
    proof {
        if reads.filename {
            assert(dst.filename =~= src.filename);
        }
        if reads.args {
            assert(dst.args =~= src.args);
        }
        if reads.binary_path {
            assert(dst.binary_path =~= src.binary_path);
        }
    }
}

} // verus!
