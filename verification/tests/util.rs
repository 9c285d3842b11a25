use agent_capture::event::process::ProcInfo;
use agent_capture::util::{bounded_copy, copy_proc, SnapshotReads};

#[test]
fn long_source_is_cut_at_capacity() {
    let src: Vec<u8> = (0..2000u32).map(|i| (i % 251) as u8 + 1).collect();
    let mut dst = [0u8; 1024];
    let written = bounded_copy(&src, &mut dst);
    assert_eq!(written, 1024);
    assert_eq!(&dst[..], &src[..1024]);
}

#[test]
fn source_of_exactly_the_capacity_fills_the_buffer() {
    let src = vec![7u8; 1024];
    let mut dst = [0u8; 1024];
    assert_eq!(bounded_copy(&src, &mut dst), 1024);
    assert!(dst.iter().all(|b| *b == 7));
}

#[test]
fn short_source_leaves_the_rest() {
    let mut dst = [9u8; 8];
    assert_eq!(bounded_copy(b"abc", &mut dst), 3);
    assert_eq!(&dst, b"abc\x09\x09\x09\x09\x09");
}

#[test]
fn empty_source_writes_nothing() {
    let mut dst = [9u8; 4];
    assert_eq!(bounded_copy(&[], &mut dst), 0);
    assert_eq!(dst, [9u8; 4]);
}

#[test]
fn copy_proc_copies_all_but_the_clone_flag() {
    let mut src = ProcInfo::zeroed();
    src.pid = 10;
    src.tid = 11;
    src.ppid = 1;
    src.creds.uid = 1000;
    src.creds.euid = 0;
    src.creds.cap_inheritable = 1;
    src.creds.cap_permitted = 2;
    src.creds.cap_effective = 3;
    src.creds.secureexec.bits = 5;
    src.auid = 1000;
    src.clonned = true;
    src.filename[..4].copy_from_slice(b"curl");
    src.binary_path[..13].copy_from_slice(b"/usr/bin/curl");
    src.args = [b'x'; 1024];
    src.cgroup.cgroup_id = 42;
    src.cgroup.cgroup_name[0] = b'c';
    let mut dst = ProcInfo::zeroed();
    dst.pid = 99;
    dst.args = [b'y'; 1024];
    copy_proc(&src, &mut dst, &SnapshotReads { filename: true, args: true, binary_path: true });
    assert_eq!((dst.pid, dst.tid, dst.ppid, dst.auid), (10, 11, 1, 1000));
    assert_eq!((dst.creds.uid, dst.creds.euid), (1000, 0));
    assert_eq!(
        (dst.creds.cap_inheritable, dst.creds.cap_permitted, dst.creds.cap_effective),
        (1, 2, 3)
    );
    assert_eq!(dst.creds.secureexec.bits(), 5);
    assert!(!dst.clonned);
    assert_eq!(dst.filename, src.filename);
    assert_eq!(dst.binary_path, src.binary_path);
    assert_eq!(dst.args, [b'x'; 1024]);
    assert_eq!(dst.cgroup.cgroup_id, 42);
    assert_eq!(dst.cgroup.cgroup_name, src.cgroup.cgroup_name);
}

#[test]
fn copy_proc_passes_over_a_buffer_that_cannot_be_read() {
    let mut src = ProcInfo::zeroed();
    src.pid = 10;
    src.filename[..4].copy_from_slice(b"curl");
    src.binary_path[..13].copy_from_slice(b"/usr/bin/curl");
    src.args = [b'x'; 1024];
    let mut dst = ProcInfo::zeroed();
    dst.filename[..3].copy_from_slice(b"old");
    dst.args = [b'y'; 1024];
    copy_proc(&src, &mut dst, &SnapshotReads { filename: false, args: false, binary_path: true });
    assert_eq!(dst.pid, 10);
    assert_eq!(&dst.filename[..4], b"old\0");
    assert_eq!(dst.args, [b'y'; 1024]);
    assert_eq!(dst.binary_path, src.binary_path);
    copy_proc(&src, &mut dst, &SnapshotReads { filename: true, args: true, binary_path: false });
    assert_eq!(dst.filename, src.filename);
    assert_eq!(dst.args, [b'x'; 1024]);
}
