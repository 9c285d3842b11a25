use agent_capture::config::processmonitor::{
    ProcessFilterMask, AUID, BINARY_NAME, BINARY_PATH, BINARY_PATH_PREFIX, EUID, E_CAPS, UID,
};
use agent_capture::event::process::ProcInfo;
use agent_capture::filter::process::{
    same_bytes, verdict, FilterHits, IdSet, KeySet, PrefixIndex, PrefixKey, ProcessFilter,
};

fn name_key(s: &str) -> [u8; 32] {
    let mut k = [0u8; 32];
    k[..s.len()].copy_from_slice(s.as_bytes());
    k
}

fn path_key(s: &str) -> [u8; 1024] {
    let mut k = [0u8; 1024];
    k[..s.len()].copy_from_slice(s.as_bytes());
    k
}

fn prefix_key(s: &str, bits: u32) -> PrefixKey {
    let mut data = [0u8; 256];
    data[..s.len()].copy_from_slice(s.as_bytes());
    PrefixKey { prefix_len: bits, data }
}

fn process(uid: u32, euid: u32, auid: u32, name: &str, path: &str) -> ProcInfo {
    let mut p = ProcInfo::zeroed();
    p.creds.uid = uid;
    p.creds.euid = euid;
    p.auid = auid;
    p.filename = name_key(name);
    p.binary_path = path_key(path);
    p
}

fn mask(bits: u64) -> ProcessFilterMask {
    ProcessFilterMask::from_bits_truncate(bits)
}

struct Sets {
    uid: IdSet,
    euid: IdSet,
    auid: IdSet,
    names: KeySet<32>,
    paths: KeySet<1024>,
    prefixes: PrefixIndex,
}

fn empty_sets() -> Sets {
    Sets {
        uid: IdSet::new(),
        euid: IdSet::new(),
        auid: IdSet::new(),
        names: KeySet::new(),
        paths: KeySet::new(),
        prefixes: PrefixIndex::new(),
    }
}

fn filter_of(s: &Sets) -> ProcessFilter<'_> {
    ProcessFilter::new(&s.uid, &s.euid, &s.auid, &s.names, &s.paths, &s.prefixes)
}

#[test]
fn empty_mask_passes_with_empty_sets() {
    let s = empty_sets();
    let p = process(1000, 1000, 1000, "curl", "/usr/bin/curl");
    assert!(filter_of(&s).filter(ProcessFilterMask::empty(), &p));
}

#[test]
fn empty_mask_passes_with_filled_sets() {
    let mut s = empty_sets();
    s.uid.insert(0);
    s.euid.insert(0);
    s.auid.insert(0);
    s.names.insert(name_key("nginx"));
    s.paths.insert(path_key("/usr/sbin/nginx"));
    s.prefixes.insert(prefix_key("/opt", 32));
    let p = process(1000, 1001, 1002, "curl", "/usr/bin/curl");
    assert!(filter_of(&s).filter(ProcessFilterMask::empty(), &p));
    assert!(filter_of(&s).without_scratch().filter(ProcessFilterMask::empty(), &p));
}

#[test]
fn uid_allowed_but_euid_missing_is_rejected() {
    let mut s = empty_sets();
    s.uid.insert(1000);
    s.euid.insert(0);
    let p = process(1000, 1000, 0, "curl", "/usr/bin/curl");
    assert!(!filter_of(&s).filter(mask(UID | EUID), &p));
    assert!(filter_of(&s).filter(mask(UID), &p));
    assert!(!filter_of(&s).filter(mask(EUID), &p));
}

#[test]
fn uid_and_euid_both_allowed_pass() {
    let mut s = empty_sets();
    s.uid.insert(1000);
    s.euid.insert(0);
    let p = process(1000, 0, 77, "su", "/usr/bin/su");
    assert!(filter_of(&s).filter(mask(UID | EUID), &p));
    assert!(!filter_of(&s).filter(mask(UID | EUID | AUID), &p));
    s.auid.insert(77);
    assert!(filter_of(&s).filter(mask(UID | EUID | AUID), &p));
}

#[test]
fn binary_name_in_set_passes_and_other_name_fails() {
    let mut s = empty_sets();
    s.names.insert(name_key("nginx"));
    let nginx = process(0, 0, 0, "nginx", "/usr/sbin/nginx");
    let curl = process(0, 0, 0, "curl", "/usr/bin/curl");
    assert!(filter_of(&s).filter(mask(BINARY_NAME), &nginx));
    assert!(!filter_of(&s).filter(mask(BINARY_NAME), &curl));
}

#[test]
fn binary_path_is_compared_whole() {
    let mut s = empty_sets();
    s.paths.insert(path_key("/usr/bin/curl"));
    let curl = process(0, 0, 0, "curl", "/usr/bin/curl");
    let curl2 = process(0, 0, 0, "curl", "/usr/bin/curl2");
    assert!(filter_of(&s).filter(mask(BINARY_PATH), &curl));
    assert!(!filter_of(&s).filter(mask(BINARY_PATH), &curl2));
}

#[test]
fn one_binary_match_is_enough() {
    let mut s = empty_sets();
    s.paths.insert(path_key("/usr/bin/curl"));
    let curl = process(0, 0, 0, "curl", "/usr/bin/curl");
    assert!(filter_of(&s).filter(mask(BINARY_NAME | BINARY_PATH | BINARY_PATH_PREFIX), &curl));
    assert!(!filter_of(&s).filter(mask(BINARY_NAME | BINARY_PATH_PREFIX), &curl));
}

#[test]
fn binary_match_does_not_make_up_for_identity() {
    let mut s = empty_sets();
    s.names.insert(name_key("nginx"));
    s.uid.insert(33);
    let nginx = process(0, 0, 0, "nginx", "/usr/sbin/nginx");
    assert!(!filter_of(&s).filter(mask(UID | BINARY_NAME), &nginx));
    let nginx33 = process(33, 0, 0, "nginx", "/usr/sbin/nginx");
    assert!(filter_of(&s).filter(mask(UID | BINARY_NAME), &nginx33));
}

#[test]
fn path_prefix_matches_below_and_not_elsewhere() {
    let mut s = empty_sets();
    s.prefixes.insert(prefix_key("/usr/bin", 64));
    let curl = process(0, 0, 0, "curl", "/usr/bin/curl");
    let other = process(0, 0, 0, "curl", "/opt/bin/curl");
    assert!(filter_of(&s).filter(mask(BINARY_PATH_PREFIX), &curl));
    assert!(!filter_of(&s).filter(mask(BINARY_PATH_PREFIX), &other));
}

#[test]
fn path_prefix_of_nine_bytes() {
    let mut s = empty_sets();
    s.prefixes.insert(prefix_key("/usr/bin/", 72));
    let curl = process(0, 0, 0, "curl", "/usr/bin/curl");
    let other = process(0, 0, 0, "curl", "/opt/bin/curl");
    let sibling = process(0, 0, 0, "x", "/usr/binx");
    assert!(filter_of(&s).filter(mask(BINARY_PATH_PREFIX), &curl));
    assert!(!filter_of(&s).filter(mask(BINARY_PATH_PREFIX), &other));
    assert!(!filter_of(&s).filter(mask(BINARY_PATH_PREFIX), &sibling));
}

#[test]
fn prefix_check_without_scratch_finds_nothing() {
    let mut s = empty_sets();
    s.prefixes.insert(prefix_key("/usr/bin", 64));
    let curl = process(0, 0, 0, "curl", "/usr/bin/curl");
    assert!(!filter_of(&s).without_scratch().filter(mask(BINARY_PATH_PREFIX), &curl));
}

#[test]
fn prefix_entry_counts_bits() {
    // 'a' is 0x61, 'b' is 0x62: they agree on their first six bits.
    let entry = prefix_key("/a", 14);
    assert!(entry.is_prefix_of(&prefix_key("/b", 2048)));
    assert!(!prefix_key("/a", 15).is_prefix_of(&prefix_key("/b", 2048)));
    assert!(!prefix_key("/a", 16).is_prefix_of(&prefix_key("/b", 2048)));
    assert!(prefix_key("/a", 16).is_prefix_of(&prefix_key("/a", 2048)));
}

#[test]
fn prefix_entry_longer_than_key_does_not_match() {
    assert!(!prefix_key("/usr", 32).is_prefix_of(&prefix_key("/usr", 24)));
    assert!(prefix_key("/usr", 24).is_prefix_of(&prefix_key("/usr", 24)));
    assert!(!prefix_key("", 2049).is_prefix_of(&prefix_key("", 4000)));
}

#[test]
fn empty_prefix_matches_every_path() {
    let mut index = PrefixIndex::new();
    assert!(!index.get(&prefix_key("/etc/passwd", 2048)));
    index.insert(prefix_key("", 0));
    assert!(index.get(&prefix_key("/etc/passwd", 2048)));
}

#[test]
fn prefix_key_uses_the_first_256_bytes_of_the_path() {
    let long = "a".repeat(300);
    let mut s = empty_sets();
    let mut entry = PrefixKey { prefix_len: 2048, data: [b'a'; 256] };
    s.prefixes.insert(PrefixKey { prefix_len: entry.prefix_len, data: entry.data });
    let p = process(0, 0, 0, "a", &long);
    assert!(filter_of(&s).filter(mask(BINARY_PATH_PREFIX), &p));
    entry.data[255] = b'b';
    let mut t = empty_sets();
    t.prefixes.insert(entry);
    assert!(!filter_of(&t).filter(mask(BINARY_PATH_PREFIX), &p));
}

#[test]
fn capability_bit_alone_checks_nothing() {
    let s = empty_sets();
    let p = process(5, 6, 7, "x", "/x");
    assert!(filter_of(&s).filter(mask(E_CAPS), &p));
}

#[test]
fn verdict_from_lookup_outcomes() {
    let all = FilterHits {
        uid: true,
        euid: true,
        auid: true,
        binary_name: false,
        binary_path: false,
        binary_prefix: true,
    };
    assert!(verdict(mask(UID | EUID | AUID | BINARY_PATH_PREFIX), &all));
    assert!(!verdict(mask(UID | BINARY_NAME | BINARY_PATH), &all));
    let none = FilterHits {
        uid: false,
        euid: false,
        auid: false,
        binary_name: false,
        binary_path: false,
        binary_prefix: false,
    };
    assert!(verdict(ProcessFilterMask::empty(), &none));
    assert!(!verdict(mask(AUID), &none));
    assert!(!verdict(mask(BINARY_NAME), &none));
}

#[test]
fn id_set_membership() {
    let mut s = IdSet::new();
    assert!(!s.contains(0));
    s.insert(0);
    s.insert(4294967295);
    assert!(s.contains(0));
    assert!(s.contains(4294967295));
    assert!(!s.contains(1));
}

#[test]
fn same_bytes_compares_every_byte() {
    let a = name_key("nginx");
    let mut b = name_key("nginx");
    assert!(same_bytes(&a, &b));
    b[31] = 1;
    assert!(!same_bytes(&a, &b));
}

#[test]
fn loading_a_key_leaves_nothing_of_the_old_one() {
    let mut key = PrefixKey { prefix_len: 3, data: [0xffu8; 256] };
    key.load(&path_key("/usr/bin/curl"));
    assert_eq!(key.prefix_len, 2048);
    assert_eq!(&key.data[..13], b"/usr/bin/curl");
    assert!(key.data[13..].iter().all(|b| *b == 0));
}
