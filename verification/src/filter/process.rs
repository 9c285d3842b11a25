//! Process identity filter: allow-sets, the prefix index and the evaluator.

use vstd::prelude::*;
use crate::config::processmonitor::{
    ProcessFilterMask, AUID, BINARY_NAME, BINARY_PATH, BINARY_PATH_PREFIX, EUID, UID,
};
use crate::constants::{MAX_FILENAME_SIZE, MAX_FILE_PATH, MAX_FILE_PREFIX};
use crate::event::process::ProcInfo;
use crate::util::bounded_copy;

verus! {

/// Allow-set keyed by a 32-bit id. Only presence matters.
pub struct IdSet {
    pub keys: Vec<u32>,
}

impl IdSet {
    /// Whether `key` is in the set.
    pub open spec fn has(&self, key: u32) -> bool {
        self.keys@.contains(key)
    }

    /// The empty set.
    pub fn new() -> (r: IdSet)
        ensures
            r.keys@ == Seq::<u32>::empty(),
    {
        IdSet { keys: Vec::new() }
    }

    /// Adds `key`.
    pub fn insert(&mut self, key: u32)
        ensures
            final(self).keys@ == old(self).keys@.push(key),
    {
        self.keys.push(key);
    }

    /// Whether `key` is in the set.
    pub fn contains(&self, key: u32) -> (r: bool)
        ensures
            r == self.has(key),
    {
        let mut i: usize = 0;
        while i < self.keys.len()
            invariant
                i <= self.keys@.len(),
                forall|j: int| 0 <= j < i ==> self.keys@[j] != key,
            decreases self.keys@.len() - i,
        {
            if self.keys[i] == key {
                return true;
            }
            i += 1;
        }
        false
    }
}

/// Whether two buffers of one capacity hold the same bytes.
pub fn same_bytes<const N: usize>(a: &[u8; N], b: &[u8; N]) -> (r: bool)
    ensures
        r == (a@ == b@),
{
    let mut i: usize = 0;
    while i < N
        invariant
            i <= N,
            forall|j: int| 0 <= j < i ==> a@[j] == b@[j],
        decreases N - i,
    {
        if a[i] != b[i] {
            return false;
        }
        i += 1;
    }
    proof {
        assert(a@ =~= b@);
    }
    true
}

/// Allow-set keyed by a byte buffer of capacity `N`, compared whole.
pub struct KeySet<const N: usize> {
    pub keys: Vec<[u8; N]>,
}

impl<const N: usize> KeySet<N> {
    /// Whether a key with the bytes `key` is in the set.
    pub open spec fn has(&self, key: Seq<u8>) -> bool {
        exists|i: int| 0 <= i < self.keys@.len() && (#[trigger] self.keys@[i])@ == key
    }

    /// The empty set.
    pub fn new() -> (r: KeySet<N>)
        ensures
            r.keys@ == Seq::<[u8; N]>::empty(),
    {
        KeySet { keys: Vec::new() }
    }

    /// Adds `key`.
    pub fn insert(&mut self, key: [u8; N])
        ensures
            final(self).keys@ == old(self).keys@.push(key),
    {
        self.keys.push(key);
    }

    /// Whether `key` is in the set.
    pub fn contains(&self, key: &[u8; N]) -> (r: bool)
        ensures
            r == self.has(key@),
    {
        let mut i: usize = 0;
        while i < self.keys.len()
            invariant
                i <= self.keys@.len(),
                forall|j: int| 0 <= j < i ==> (#[trigger] self.keys@[j])@ != key@,
            decreases self.keys@.len() - i,
        {
            if same_bytes(&self.keys[i], key) {
                return true;
            }
            i += 1;
        }
        false
    }
}

/// Key of the prefix index: the number of leading bits that count, and the
/// bytes that hold them, most significant bit first.
pub struct PrefixKey {
    pub prefix_len: u32,
    pub data: [u8; MAX_FILE_PREFIX],
}

/// Whether the first `prefix_len` bits of `data` and of `key` agree. A
/// length beyond the capacity of a key covers nothing.
pub open spec fn prefix_covers(prefix_len: u32, data: Seq<u8>, key: Seq<u8>) -> bool {
    let full = (prefix_len / 8) as int;
    let rest = prefix_len % 8;
    &&& prefix_len <= MAX_FILE_PREFIX * 8
    &&& forall|i: int| 0 <= i < full ==> data[i] == key[i]
    &&& rest != 0 ==> (data[full] >> (8 - rest)) == (key[full] >> (8 - rest))
}

impl PrefixKey {
    /// Whether this entry is a prefix of `key`, no longer than `key` is.
    pub open spec fn covers(&self, key: &PrefixKey) -> bool {
        self.prefix_len <= key.prefix_len && prefix_covers(self.prefix_len, self.data@, key.data@)
    }

    /// Makes this key the one to ask the index with for `path`: the buffer
    /// is cleared, then filled from the start of the path, and every bit of
    /// it counts. Nothing of what the key held before is left.
    pub fn load(&mut self, path: &[u8; MAX_FILE_PATH])
        ensures
            final(self).prefix_len == MAX_FILE_PREFIX * 8,
            final(self).data@ == path@.subrange(0, MAX_FILE_PREFIX as int),
    {
        let mut i: usize = 0;
        while i < MAX_FILE_PREFIX
            invariant
                i <= MAX_FILE_PREFIX,
                forall|j: int| 0 <= j < i ==> self.data@[j] == 0,
            decreases MAX_FILE_PREFIX - i,
        {
            self.data[i] = 0;
            i += 1;
        }
        bounded_copy(path.as_slice(), &mut self.data);
        self.prefix_len = 2048;
    }

    /// Whether this entry is a prefix of `key`, no longer than `key` is.
    pub fn is_prefix_of(&self, key: &PrefixKey) -> (r: bool)
        ensures
            r == self.covers(key),
    {
        if self.prefix_len > key.prefix_len || self.prefix_len > 2048 {
            return false;
        }
        let full: usize = (self.prefix_len / 8) as usize;
        let rest: u32 = self.prefix_len % 8;
        let mut i: usize = 0;
        while i < full
            invariant
                i <= full <= MAX_FILE_PREFIX,
                full == (self.prefix_len / 8) as int,
                forall|j: int| 0 <= j < i ==> self.data@[j] == key.data@[j],
            decreases full - i,
        {
            if self.data[i] != key.data[i] {
                return false;
            }
            i += 1;
        }
        if rest != 0 {
            let shift: u32 = 8 - rest;
            return (self.data[full] >> shift) == (key.data[full] >> shift);
        }
        true
    }
}

/// Longest-prefix-match index of allowed path prefixes. Only presence matters.
pub struct PrefixIndex {
    pub entries: Vec<PrefixKey>,
}

impl PrefixIndex {
    /// Whether some entry is a prefix of `key`.
    pub open spec fn has_match(&self, key: &PrefixKey) -> bool {
        exists|i: int| 0 <= i < self.entries@.len() && (#[trigger] self.entries@[i]).covers(key)
    }

    /// The empty index.
    pub fn new() -> (r: PrefixIndex)
        ensures
            r.entries@ == Seq::<PrefixKey>::empty(),
    {
        PrefixIndex { entries: Vec::new() }
    }

    /// Adds an entry.
    pub fn insert(&mut self, key: PrefixKey)
        ensures
            final(self).entries@ == old(self).entries@.push(key),
    {
        self.entries.push(key);
    }

    /// Whether some entry is a prefix of `key`.
    pub fn get(&self, key: &PrefixKey) -> (r: bool)
        ensures
            r == self.has_match(key),
    {
        let mut i: usize = 0;
        while i < self.entries.len()
            invariant
                i <= self.entries@.len(),
                forall|j: int| 0 <= j < i ==> !(#[trigger] self.entries@[j]).covers(key),
            decreases self.entries@.len() - i,
        {
            if self.entries[i].is_prefix_of(key) {
                return true;
            }
            i += 1;
        }
        false
    }
}

/// Outcome of each lookup the filter can make for one process.
pub struct FilterHits {
    /// The uid is in the uid allow-set
    pub uid: bool,
    /// The euid is in the euid allow-set
    pub euid: bool,
    /// The login uid is in the auid allow-set
    pub auid: bool,
    /// The executable's name is in the name allow-set
    pub binary_name: bool,
    /// The executable's path is in the path allow-set
    pub binary_path: bool,
    /// The scratch key was to be had and the prefix index holds a prefix of the path
    pub binary_prefix: bool,
}

/// The bits that ask for a check of the executable.
pub open spec fn binary_bits() -> u64 {
    BINARY_NAME | BINARY_PATH | BINARY_PATH_PREFIX
}

/// Every enabled identity attribute was found.
pub open spec fn tier_one(mask: ProcessFilterMask, hits: FilterHits) -> bool {
    &&& mask.enables(UID) ==> hits.uid
    &&& mask.enables(EUID) ==> hits.euid
    &&& mask.enables(AUID) ==> hits.auid
}

/// No check of the executable is enabled, or one enabled check found it.
pub open spec fn tier_two(mask: ProcessFilterMask, hits: FilterHits) -> bool {
    ||| mask.bits & binary_bits() == 0
    ||| mask.enables(BINARY_NAME) && hits.binary_name
    ||| mask.enables(BINARY_PATH) && hits.binary_path
    ||| mask.enables(BINARY_PATH_PREFIX) && hits.binary_prefix
}

/// The filter's answer from the lookups' outcomes.
pub open spec fn verdict_of(mask: ProcessFilterMask, hits: FilterHits) -> bool {
    tier_one(mask, hits) && tier_two(mask, hits)
}

/// The filter's answer from the lookups' outcomes, for a caller that made
/// the lookups itself.
pub fn verdict(mask: ProcessFilterMask, hits: &FilterHits) -> (r: bool)
    ensures
        r == verdict_of(mask, *hits),
{
    if mask.contains(ProcessFilterMask { bits: UID }) && !hits.uid {
        return false;
    }
    if mask.contains(ProcessFilterMask { bits: EUID }) && !hits.euid {
        return false;
    }
    if mask.contains(ProcessFilterMask { bits: AUID }) && !hits.auid {
        return false;
    }
    if mask.intersection(
        ProcessFilterMask { bits: BINARY_NAME | BINARY_PATH | BINARY_PATH_PREFIX },
    ).is_empty() {
        return true;
    }
    (mask.contains(ProcessFilterMask { bits: BINARY_NAME }) && hits.binary_name) || (mask.contains(
        ProcessFilterMask { bits: BINARY_PATH },
    ) && hits.binary_path) || (mask.contains(ProcessFilterMask { bits: BINARY_PATH_PREFIX })
        && hits.binary_prefix)
}

/// The allow-sets that one probe family filters by.
pub struct ProcessFilter<'a> {
    pub uid_map: &'a IdSet,
    pub euid_map: &'a IdSet,
    pub auid_map: &'a IdSet,
    pub binary_name_map: &'a KeySet<MAX_FILENAME_SIZE>,
    pub binary_path_map: &'a KeySet<MAX_FILE_PATH>,
    pub binary_prefix_map: &'a PrefixIndex,
    /// Whether the scratch key for prefix lookups is to be had
    pub scratch_available: bool,
}

impl<'a> ProcessFilter<'a> {
    /// A filter over the given allow-sets, with its scratch key at hand.
    pub fn new(
        uid_map: &'a IdSet,
        euid_map: &'a IdSet,
        auid_map: &'a IdSet,
        binary_name_map: &'a KeySet<MAX_FILENAME_SIZE>,
        binary_path_map: &'a KeySet<MAX_FILE_PATH>,
        binary_prefix_map: &'a PrefixIndex,
    ) -> (r: Self)
        ensures
            r == (ProcessFilter {
                uid_map,
                euid_map,
                auid_map,
                binary_name_map,
                binary_path_map,
                binary_prefix_map,
                scratch_available: true,
            }),
    {
        ProcessFilter {
            uid_map,
            euid_map,
            auid_map,
            binary_name_map,
            binary_path_map,
            binary_prefix_map,
            scratch_available: true,
        }
    }

    /// The same filter with no scratch key: prefix lookups then find nothing.
    pub fn without_scratch(self) -> (r: Self)
        ensures
            r == (ProcessFilter { scratch_available: false, ..self }),
    {
        ProcessFilter { scratch_available: false, ..self }
    }

    /// What each lookup finds for `proc`.
    pub open spec fn hits_of(&self, proc: ProcInfo) -> FilterHits {
        FilterHits {
            uid: self.uid_map.has(proc.creds.uid),
            euid: self.euid_map.has(proc.creds.euid),
            auid: self.auid_map.has(proc.auid),
            binary_name: self.binary_name_map.has(proc.filename@),
            binary_path: self.binary_path_map.has(proc.binary_path@),
            binary_prefix: self.scratch_available && exists|i: int|
                0 <= i < self.binary_prefix_map.entries@.len() && prefix_covers(
                    (#[trigger] self.binary_prefix_map.entries@[i]).prefix_len,
                    self.binary_prefix_map.entries@[i].data@,
                    proc.binary_path@.subrange(0, MAX_FILE_PREFIX as int),
                ),
        }
    }

    /// Whether `proc` passes the checks that `mask` enables.
    pub open spec fn passes(&self, mask: ProcessFilterMask, proc: ProcInfo) -> bool {
        verdict_of(mask, self.hits_of(proc))
    }

    /// Whether `proc` passes the checks that `mask` enables: every enabled
    /// identity attribute is in its allow-set, and, where a check of the
    /// executable is enabled, one of the enabled ones finds it.
    pub fn filter(&self, mask: ProcessFilterMask, proc: &ProcInfo) -> (r: bool)
        ensures
            r == self.passes(mask, *proc),
    {
        if mask.contains(ProcessFilterMask { bits: UID }) && !self.uid_map.contains(proc.creds.uid) {
            return false;
        }
        if mask.contains(ProcessFilterMask { bits: EUID }) && !self.euid_map.contains(
            proc.creds.euid,
        ) {
            return false;
        }
        if mask.contains(ProcessFilterMask { bits: AUID }) && !self.auid_map.contains(proc.auid) {
            return false;
        }
        if mask.intersection(
            ProcessFilterMask { bits: BINARY_NAME | BINARY_PATH | BINARY_PATH_PREFIX },
        ).is_empty() {
            return true;
        }
        if mask.contains(ProcessFilterMask { bits: BINARY_NAME }) && self.binary_name_map.contains(
            &proc.filename,
        ) {
            return true;
        }
        if mask.contains(ProcessFilterMask { bits: BINARY_PATH }) && self.binary_path_map.contains(
            &proc.binary_path,
        ) {
            return true;
        }
        if mask.contains(ProcessFilterMask { bits: BINARY_PATH_PREFIX }) {
            if !self.scratch_available {
                return false;
            }
            let mut prefix = PrefixKey { prefix_len: 0, data: [0u8; MAX_FILE_PREFIX] };
            prefix.load(&proc.binary_path);
            proof {
                assert forall|i: int| 0 <= i < self.binary_prefix_map.entries@.len() implies (
                #[trigger] self.binary_prefix_map.entries@[i]).covers(&prefix) == prefix_covers(
                    self.binary_prefix_map.entries@[i].prefix_len,
                    self.binary_prefix_map.entries@[i].data@,
                    proc.binary_path@.subrange(0, MAX_FILE_PREFIX as int),
                ) by {}
            }
            if self.binary_prefix_map.get(&prefix) {
                return true;
            }
        }
        false
    }
}

/// With no bit set in the mask, every process passes, whatever the
/// allow-sets hold.
pub proof fn empty_mask_passes(f: ProcessFilter, mask: ProcessFilterMask, proc: ProcInfo)
    requires
        mask.none_set(),
    ensures
        f.passes(mask, proc),
{
    assert(0u64 & 0x8 != 0x8 && 0u64 & 0x10 != 0x10 && 0u64 & 0x20 != 0x20 && 0u64 & (0x1u64
        | 0x2 | 0x4) == 0) by (bit_vector);
}

/// The identity checks are a conjunction: with the uid and the euid check
/// both enabled, a uid that is allowed does not make up for an euid that is
/// not.
pub proof fn tier_one_conjunction(f: ProcessFilter, mask: ProcessFilterMask, proc: ProcInfo)
    requires
        mask.enables(UID),
        mask.enables(EUID),
        f.uid_map.has(proc.creds.uid),
        !f.euid_map.has(proc.creds.euid),
    ensures
        !f.passes(mask, proc),
{
}

/// The checks of the executable are a disjunction: once the identity checks
/// hold, one enabled check that finds the executable is enough.
pub proof fn tier_two_disjunction(mask: ProcessFilterMask, hits: FilterHits)
    requires
        tier_one(mask, hits),
        (mask.enables(BINARY_NAME) && hits.binary_name) || (mask.enables(BINARY_PATH)
            && hits.binary_path) || (mask.enables(BINARY_PATH_PREFIX) && hits.binary_prefix),
    ensures
        verdict_of(mask, hits),
{
}

} // verus!
