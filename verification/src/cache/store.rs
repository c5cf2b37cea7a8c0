//! The build cache: one record per target, which tells whether the target
//! has to be built again.

use crate::error::Error;
use std::time::{Duration, SystemTime};
use vstd::prelude::*;
use vstd::string::StringExecFns;

verus! {

/// What is remembered of the last build of a target.
#[derive(Debug, Clone, PartialEq, Eq)]
pub struct CacheEntry {
    /// The target triple.
    pub target: String,
    /// The fingerprint of the sources that were built.
    pub source_hash: u64,
    /// When the build ended, in seconds since the epoch.
    pub timestamp: u64,
    /// Whether the build succeeded.
    pub success: bool,
}

/// A cache entry as plain values.
pub struct CacheEntryView {
    pub target: Seq<char>,
    pub source_hash: u64,
    pub timestamp: u64,
    pub success: bool,
}

impl View for CacheEntry {
    type V = CacheEntryView;

    open spec fn view(&self) -> CacheEntryView {
        CacheEntryView {
            target: self.target@,
            source_hash: self.source_hash,
            timestamp: self.timestamp,
            success: self.success,
        }
    }
}

/// How many entries the cache holds, and how many of each outcome.
#[derive(Debug, Clone)]
pub struct CacheStats {
    /// The number of entries.
    pub total_entries: usize,
    /// The number of entries of a build that succeeded.
    pub successful_builds: usize,
    /// The number of entries of a build that failed.
    pub failed_builds: usize,
}

/// What the store on disk held when it was read.
#[derive(Debug, Clone, PartialEq, Eq)]
pub enum StoreContents {
    /// There is no store yet.
    Missing,
    /// There is one, and it cannot be read: the reason is given.
    Malformed(String),
    /// The records of the store, each under its key, in the order in which
    /// the store holds them.
    Records(Vec<(String, CacheEntry)>),
}

/// The records of a store as plain values.
pub open spec fn record_views(records: Seq<(String, CacheEntry)>) -> Seq<
    (Seq<char>, CacheEntryView),
> {
    Seq::new(records.len(), |i: int| (records[i].0@, records[i].1@))
}

/// The cache that a row of records stands for: each record under its key,
/// a later record replacing an earlier one with the same key.
pub open spec fn map_of(records: Seq<(Seq<char>, CacheEntryView)>) -> Map<Seq<char>, CacheEntryView>
    decreases records.len(),
{
    if records.len() == 0 {
        Map::empty()
    } else {
        map_of(records.drop_last()).insert(records.last().0, records.last().1)
    }
}

/// No two records have the same key.
pub open spec fn keys_unique(records: Seq<(Seq<char>, CacheEntryView)>) -> bool {
    forall|i: int, j: int|
        0 <= i < j < records.len() ==> (#[trigger] records[i]).0 != (#[trigger] records[j]).0
}

/// A target has to be built when the cache knows nothing of it, when its last
/// build failed, or when its sources are not those of the last build. A build
/// that failed is tried again whatever the fingerprint says.
pub open spec fn rebuild_needed(
    cache: Map<Seq<char>, CacheEntryView>,
    target: Seq<char>,
    source_hash: u64,
) -> bool {
    ||| !cache.dom().contains(target)
    ||| !cache[target].success
    ||| cache[target].source_hash != source_hash
}

/// The number of entries of a build that succeeded.
pub open spec fn successes(cache: Map<Seq<char>, CacheEntryView>) -> nat {
    cache.dom().filter(|k: Seq<char>| cache[k].success).len()
}

/// The message for a store that cannot be read.
pub open spec fn malformed_message(reason: Seq<char>) -> Seq<char> {
    "Failed to parse cache: "@ + reason
}

/// The keys of the cache are the keys of the records.
pub proof fn lemma_map_of_dom(records: Seq<(Seq<char>, CacheEntryView)>)
    ensures
        map_of(records).dom().finite(),
        forall|k: Seq<char>|
            map_of(records).dom().contains(k) <==> exists|i: int|
                0 <= i < records.len() && (#[trigger] records[i]).0 == k,
    decreases records.len(),
{
    if records.len() > 0 {
        let init = records.drop_last();
        lemma_map_of_dom(init);
        assert forall|k: Seq<char>|
            map_of(records).dom().contains(k) <==> exists|i: int|
                0 <= i < records.len() && (#[trigger] records[i]).0 == k by {
            if map_of(records).dom().contains(k) {
                if k == records.last().0 {
                    assert(records[records.len() - 1].0 == k);
                } else {
                    let i = choose|i: int| 0 <= i < init.len() && (#[trigger] init[i]).0 == k;
                    assert(records[i].0 == k);
                }
            }
            if exists|i: int| 0 <= i < records.len() && (#[trigger] records[i]).0 == k {
                let i = choose|i: int| 0 <= i < records.len() && (#[trigger] records[i]).0 == k;
                if i < records.len() - 1 {
                    assert(init[i].0 == k);
                }
            }
        }
    }
}

/// Where no key occurs twice, each record is found under its key, and there
/// are as many entries as records.
pub proof fn lemma_map_of_unique(records: Seq<(Seq<char>, CacheEntryView)>)
    requires
        keys_unique(records),
    ensures
        forall|i: int|
            0 <= i < records.len() ==> map_of(records)[(#[trigger] records[i]).0] == records[i].1,
        map_of(records).dom().len() == records.len(),
    decreases records.len(),
{
    if records.len() > 0 {
        let init = records.drop_last();
        assert forall|i: int, j: int| 0 <= i < j < init.len() implies (#[trigger] init[i]).0 != (
        #[trigger] init[j]).0 by {
            assert(init[i] == records[i]);
            assert(init[j] == records[j]);
        }
        lemma_map_of_unique(init);
        lemma_map_of_dom(init);
        assert forall|i: int| 0 <= i < records.len() implies map_of(records)[(
        #[trigger] records[i]).0] == records[i].1 by {
            if i < records.len() - 1 {
                assert(init[i] == records[i]);
                assert(records[i].0 != records[records.len() - 1].0);
            }
        }
        assert(!map_of(init).dom().contains(records.last().0)) by {
            if map_of(init).dom().contains(records.last().0) {
                let i = choose|i: int|
                    0 <= i < init.len() && (#[trigger] init[i]).0 == records.last().0;
                assert(records[i].0 != records[records.len() - 1].0);
            }
        }
    }
}

/// A record in place of one with the same key: the row still has no key
/// twice, and its cache has the new entry under that key.
pub proof fn lemma_map_of_update(
    records: Seq<(Seq<char>, CacheEntryView)>,
    i: int,
    pair: (Seq<char>, CacheEntryView),
)
    requires
        keys_unique(records),
        0 <= i < records.len(),
        records[i].0 == pair.0,
    ensures
        keys_unique(records.update(i, pair)),
        map_of(records.update(i, pair)) == map_of(records).insert(pair.0, pair.1),
{
    let after = records.update(i, pair);
    assert forall|a: int, b: int| 0 <= a < b < after.len() implies (#[trigger] after[a]).0 != (
    #[trigger] after[b]).0 by {
        assert(after[a].0 == records[a].0);
        assert(after[b].0 == records[b].0);
    }
    lemma_map_of_dom(records);
    lemma_map_of_dom(after);
    lemma_map_of_unique(records);
    lemma_map_of_unique(after);
    let expected = map_of(records).insert(pair.0, pair.1);
    assert forall|k: Seq<char>| #[trigger]
        map_of(after).dom().contains(k) == expected.dom().contains(k) by {
        if map_of(after).dom().contains(k) {
            let a = choose|a: int| 0 <= a < after.len() && (#[trigger] after[a]).0 == k;
            assert(records[a].0 == k);
        }
        if map_of(records).dom().contains(k) {
            let a = choose|a: int| 0 <= a < records.len() && (#[trigger] records[a]).0 == k;
            assert(after[a].0 == k);
        }
        if k == pair.0 {
            assert(after[i].0 == k);
        }
    }
    assert forall|k: Seq<char>| #[trigger]
        map_of(after).dom().contains(k) implies map_of(after)[k] == expected[k] by {
        let a = choose|a: int| 0 <= a < after.len() && (#[trigger] after[a]).0 == k;
        if a != i {
            assert(records[a] == after[a]);
            assert(records[a].0 != records[i].0);
        }
    }
    assert(map_of(after) =~= expected);
}

/// One more record under a key that the row does not hold yet: the row still
/// has no key twice.
pub proof fn lemma_keys_unique_push(
    records: Seq<(Seq<char>, CacheEntryView)>,
    pair: (Seq<char>, CacheEntryView),
)
    requires
        keys_unique(records),
        forall|i: int| 0 <= i < records.len() ==> (#[trigger] records[i]).0 != pair.0,
    ensures
        keys_unique(records.push(pair)),
        map_of(records.push(pair)) == map_of(records).insert(pair.0, pair.1),
{
    let after = records.push(pair);
    assert(after.drop_last() == records);
    assert forall|a: int, b: int| 0 <= a < b < after.len() implies (#[trigger] after[a]).0 != (
    #[trigger] after[b]).0 by {
        assert(after[a] == records[a]);
        if b < records.len() {
            assert(after[b] == records[b]);
        }
    }
}

/// A record taken out: the row still has no key twice, and its cache has no
/// entry under the key of that record.
pub proof fn lemma_map_of_remove(records: Seq<(Seq<char>, CacheEntryView)>, i: int)
    requires
        keys_unique(records),
        0 <= i < records.len(),
    ensures
        keys_unique(records.remove(i)),
        map_of(records.remove(i)) == map_of(records).remove(records[i].0),
{
    let after = records.remove(i);
    let key = records[i].0;
    assert forall|a: int, b: int| 0 <= a < b < after.len() implies (#[trigger] after[a]).0 != (
    #[trigger] after[b]).0 by {
        let a0 = if a < i { a } else { a + 1 };
        let b0 = if b < i { b } else { b + 1 };
        assert(after[a] == records[a0]);
        assert(after[b] == records[b0]);
    }
    lemma_map_of_dom(records);
    lemma_map_of_dom(after);
    lemma_map_of_unique(records);
    lemma_map_of_unique(after);
    let expected = map_of(records).remove(key);
    assert forall|k: Seq<char>| #[trigger]
        map_of(after).dom().contains(k) == expected.dom().contains(k) by {
        if map_of(after).dom().contains(k) {
            let a = choose|a: int| 0 <= a < after.len() && (#[trigger] after[a]).0 == k;
            let a0 = if a < i { a } else { a + 1 };
            assert(after[a] == records[a0]);
            assert(records[a0].0 != records[i].0);
        }
        if map_of(records).dom().contains(k) && k != key {
            let a = choose|a: int| 0 <= a < records.len() && (#[trigger] records[a]).0 == k;
            let a1 = if a < i { a } else { a - 1 };
            assert(after[a1] == records[a]);
        }
    }
    assert forall|k: Seq<char>| #[trigger]
        map_of(after).dom().contains(k) implies map_of(after)[k] == expected[k] by {
        let a = choose|a: int| 0 <= a < after.len() && (#[trigger] after[a]).0 == k;
        let a0 = if a < i { a } else { a + 1 };
        assert(after[a] == records[a0]);
    }
    assert(map_of(after) =~= expected);
}

/// A key that no record has is no key of the cache.
pub proof fn lemma_map_of_misses(records: Seq<(Seq<char>, CacheEntryView)>, key: Seq<char>)
    requires
        forall|i: int| 0 <= i < records.len() ==> (#[trigger] records[i]).0 != key,
    ensures
        !map_of(records).dom().contains(key),
{
    lemma_map_of_dom(records);
}

/// One more record under a key that is new adds one to the successes if its
/// build succeeded, and nothing otherwise.
pub proof fn lemma_successes_insert(
    cache: Map<Seq<char>, CacheEntryView>,
    key: Seq<char>,
    entry: CacheEntryView,
)
    requires
        cache.dom().finite(),
        !cache.dom().contains(key),
    ensures
        successes(cache.insert(key, entry)) == successes(cache) + if entry.success {
            1nat
        } else {
            0nat
        },
        successes(cache) <= cache.dom().len(),
{
    let after = cache.insert(key, entry);
    let before_set = cache.dom().filter(|k: Seq<char>| cache[k].success);
    let after_set = after.dom().filter(|k: Seq<char>| after[k].success);
    cache.dom().lemma_len_filter(|k: Seq<char>| cache[k].success);
    if entry.success {
        assert(after_set =~= before_set.insert(key));
    } else {
        assert(after_set =~= before_set);
    }
}

/// The rebuild policy, as it shows after an entry was recorded: a target that
/// the cache does not know is built; after a build that succeeded, the same
/// fingerprint needs no build and any other does; after a build that failed,
/// every fingerprint needs one.
pub proof fn lemma_rebuild_policy(
    cache: Map<Seq<char>, CacheEntryView>,
    target: Seq<char>,
    recorded: CacheEntryView,
    fingerprint: u64,
)
    ensures
        !cache.dom().contains(target) ==> rebuild_needed(cache, target, fingerprint),
        recorded.success && recorded.source_hash == fingerprint ==> !rebuild_needed(
            cache.insert(target, recorded),
            target,
            fingerprint,
        ),
        recorded.source_hash != fingerprint ==> rebuild_needed(
            cache.insert(target, recorded),
            target,
            fingerprint,
        ),
        !recorded.success ==> rebuild_needed(cache.insert(target, recorded), target, fingerprint),
{
}

/// The build cache.
#[derive(Debug)]
pub struct BuildCache {
    /// The entries, each under its key; no key occurs twice.
    records: Vec<(String, CacheEntry)>,
}

impl View for BuildCache {
    type V = Map<Seq<char>, CacheEntryView>;

    closed spec fn view(&self) -> Map<Seq<char>, CacheEntryView> {
        map_of(record_views(self.records@))
    }
}

/// `std::time::SystemTime`: a reading of the system clock, carried from the
/// clock to the conversion and never looked into.
#[verifier::external_type_specification]
#[verifier::external_body]
pub struct ExSystemTime(SystemTime);

/// `SystemTime::now` of the standard library: the system clock's time. Nothing
/// is claimed of it.
#[verifier::external_body]
fn clock_now() -> (now: SystemTime) {
    SystemTime::now()
}

/// `SystemTime::duration_since` of the standard library, taken against
/// `UNIX_EPOCH`: the time that has passed since the epoch, or `None` where the
/// clock stands before it. Nothing is claimed of the result.
#[verifier::external_body]
fn since_epoch(time: &SystemTime) -> (passed: Option<Duration>) {
    time.duration_since(std::time::UNIX_EPOCH).ok()
}

/// `Duration::as_secs` of the standard library: the whole seconds of a
/// duration. Nothing is claimed of the result.
#[verifier::external_body]
fn whole_seconds(duration: &Duration) -> (seconds: u64) {
    duration.as_secs()
}

impl BuildCache {
    /// No target has two entries. Every cache that this module hands out is
    /// well formed, and every operation keeps it so.
    pub closed spec fn wf(&self) -> bool {
        keys_unique(record_views(self.records@))
    }

    /// A cache without entries.
    pub fn empty() -> (cache: BuildCache)
        ensures
            cache.wf(),
            cache@ == Map::<Seq<char>, CacheEntryView>::empty(),
    {
        BuildCache { records: Vec::new() }
    }

    /// The cache that a store stands for. A store that is missing gives the
    /// empty cache; one that cannot be read is an error.
    pub fn from_store(contents: StoreContents) -> (r: Result<BuildCache, Error>)
        ensures
            r is Ok ==> r->Ok_0.wf(),
            match contents {
                StoreContents::Missing => r is Ok && r->Ok_0@ == Map::<
                    Seq<char>,
                    CacheEntryView,
                >::empty(),
                StoreContents::Malformed(reason) => r is Err && r->Err_0 is Config
                    && r->Err_0.text() == malformed_message(reason@),
                StoreContents::Records(records) => r is Ok && r->Ok_0@ == map_of(
                    record_views(records@),
                ),
            },
    {
        let mut cache = BuildCache::empty();
        match cache.load(contents) {
            Ok(()) => Ok(cache),
            Err(e) => Err(e),
        }
    }

    /// Takes over what the store held. A store that is missing leaves the
    /// cache as it is; one that cannot be read is an error and leaves the
    /// cache as it is too.
    pub fn load(&mut self, contents: StoreContents) -> (r: Result<(), Error>)
        requires
            old(self).wf(),
        ensures
            final(self).wf(),
            match contents {
                StoreContents::Missing => r is Ok && final(self)@ == old(self)@,
                StoreContents::Malformed(reason) => r is Err && r->Err_0 is Config
                    && r->Err_0.text() == malformed_message(reason@) && final(self)@ == old(
                    self,
                )@,
                StoreContents::Records(records) => r is Ok && final(self)@ == map_of(
                    record_views(records@),
                ),
            },
    {
        match contents {
            StoreContents::Missing => Ok(()),
            StoreContents::Malformed(reason) => Err(
                Error::Config(String::from_str("Failed to parse cache: ").concat(reason.as_str())),
            ),
            StoreContents::Records(records) => {
                self.clear();
                let ghost all = record_views(records@);
                let mut i: usize = 0;
                proof {
                    assert(all.take(0) == Seq::<(Seq<char>, CacheEntryView)>::empty());
                }
                while i < records.len()
                    invariant
                        self.wf(),
                        i <= records@.len(),
                        all == record_views(records@),
                        self@ == map_of(all.take(i as int)),
                    decreases records@.len() - i,
                {
                    proof {
                        assert(all.take(i + 1).drop_last() == all.take(i as int));
                        assert(all.take(i + 1).last() == (
                            records@[i as int].0@,
                            records@[i as int].1@,
                        ));
                    }
                    let key = records[i].0.clone();
                    let entry = CacheEntry {
                        target: records[i].1.target.clone(),
                        source_hash: records[i].1.source_hash,
                        timestamp: records[i].1.timestamp,
                        success: records[i].1.success,
                    };
                    self.put(key, entry);
                    i = i + 1;
                }
                proof {
                    assert(all.take(i as int) == all);
                }
                Ok(())
            },
        }
    }

    /// The records of the cache for the store, each under its key; no key
    /// occurs twice, and together they stand for this cache.
    pub fn records(&self) -> (records: &Vec<(String, CacheEntry)>)
        requires
            self.wf(),
        ensures
            keys_unique(record_views(records@)),
            map_of(record_views(records@)) == self@,
    {
        &self.records
    }

    /// Where the key stands among the records.
    fn position(&self, target: &String) -> (at: Option<usize>)
        ensures
            match at {
                Some(i) => i < self.records@.len() && self.records@[i as int].0@ == target@,
                None => forall|i: int|
                    0 <= i < self.records@.len() ==> (#[trigger] self.records@[i]).0@ != target@,
            },
    {
        let mut i: usize = 0;
        while i < self.records.len()
            invariant
                i <= self.records@.len(),
                forall|j: int| 0 <= j < i ==> (#[trigger] self.records@[j]).0@ != target@,
            decreases self.records@.len() - i,
        {
            if self.records[i].0 == *target {
                return Some(i);
            }
            i = i + 1;
        }
        None
    }

    /// Puts an entry under a key, in place of what stood there.
    fn put(&mut self, key: String, entry: CacheEntry)
        requires
            old(self).wf(),
        ensures
            final(self).wf(),
            final(self)@ == old(self)@.insert(key@, entry@),
    {
        let ghost before = record_views(self.records@);
        let ghost pair = (key@, entry@);
        match self.position(&key) {
            Some(i) => {
                self.records.set(i, (key, entry));
                proof {
                    assert(record_views(self.records@) == before.update(i as int, pair));
                    lemma_map_of_update(before, i as int, pair);
                }
            },
            None => {
                proof {
                    assert forall|i: int| 0 <= i < before.len() implies (#[trigger] before[i]).0
                        != pair.0 by {
                        assert(before[i].0 == self.records@[i].0@);
                    }
                }
                self.records.push((key, entry));
                proof {
                    assert(record_views(self.records@) == before.push(pair));
                    lemma_keys_unique_push(before, pair);
                }
            },
        }
    }

    /// Tells whether the target has to be built: when the cache knows nothing
    /// of it, when its last build failed, or when the fingerprint of its
    /// sources is not that of its last build.
    #[must_use]
    pub fn needs_rebuild(&self, target: &str, source_hash: u64) -> (needed: bool)
        requires
            self.wf(),
        ensures
            needed == rebuild_needed(self@, target@, source_hash),
    {
        match self.get(target) {
            None => true,
            Some(entry) => !entry.success || entry.source_hash != source_hash,
        }
    }

    /// The entry of a target, if the cache has one.
    #[must_use]
    pub fn get(&self, target: &str) -> (entry: Option<&CacheEntry>)
        requires
            self.wf(),
        ensures
            match entry {
                Some(e) => self@.dom().contains(target@) && e@ == self@[target@],
                None => !self@.dom().contains(target@),
            },
    {
        let ghost records = record_views(self.records@);
        let key = String::from_str(target);
        match self.position(&key) {
            Some(i) => {
                proof {
                    assert(records[i as int].0 == target@);
                    lemma_map_of_dom(records);
                    lemma_map_of_unique(records);
                }
                Some(&self.records[i].1)
            },
            None => {
                proof {
                    assert forall|i: int| 0 <= i < records.len() implies (#[trigger] records[i]).0
                        != target@ by {
                        assert(records[i].0 == self.records@[i].0@);
                    }
                    lemma_map_of_misses(records, target@);
                }
                None
            },
        }
    }

    /// Records the outcome of a build of the target, in place of what was
    /// known of it, with the time of the system clock. Every other entry
    /// stays as it is.
    pub fn update(&mut self, target: String, source_hash: u64, success: bool)
        requires
            old(self).wf(),
        ensures
            final(self).wf(),
            final(self)@ == old(self)@.insert(target@, final(self)@[target@]),
            final(self)@[target@].target == target@,
            final(self)@[target@].source_hash == source_hash,
            final(self)@[target@].success == success,
    {
        let timestamp = match since_epoch(&clock_now()) {
            Some(passed) => whole_seconds(&passed),
            None => 0,
        };
        self.update_at(target, source_hash, timestamp, success);
    }

    /// Records the outcome of a build of the target that ended at the given
    /// time, in place of what was known of it.
    pub fn update_at(&mut self, target: String, source_hash: u64, timestamp: u64, success: bool)
        requires
            old(self).wf(),
        ensures
            final(self).wf(),
            final(self)@ == old(self)@.insert(
                target@,
                CacheEntryView { target: target@, source_hash, timestamp, success },
            ),
    {
        let key = target.clone();
        self.put(key, CacheEntry { target, source_hash, timestamp, success });
    }

    /// Tells whether the target is to be built. Without a fingerprint nothing
    /// can be said of the sources, and the target is built.
    #[must_use]
    pub fn should_build(&self, target: &str, fingerprint: Option<u64>) -> (build: bool)
        requires
            self.wf(),
        ensures
            build == match fingerprint {
                Some(source_hash) => rebuild_needed(self@, target@, source_hash),
                None => true,
            },
    {
        match fingerprint {
            Some(source_hash) => self.needs_rebuild(target, source_hash),
            None => true,
        }
    }

    /// Records the outcome of a build of which the fingerprint of the sources
    /// may be missing: without one nothing is recorded.
    pub fn record(&mut self, target: String, fingerprint: Option<u64>, success: bool)
        requires
            old(self).wf(),
        ensures
            final(self).wf(),
            match fingerprint {
                Some(source_hash) => {
                    &&& final(self)@ == old(self)@.insert(target@, final(self)@[target@])
                    &&& final(self)@[target@].target == target@
                    &&& final(self)@[target@].source_hash == source_hash
                    &&& final(self)@[target@].success == success
                },
                None => final(self)@ == old(self)@,
            },
    {
        match fingerprint {
            Some(source_hash) => {
                self.update(target, source_hash, success);
            },
            None => {},
        }
    }

    /// Forgets every entry.
    pub fn clear(&mut self)
        ensures
            final(self).wf(),
            final(self)@ == Map::<Seq<char>, CacheEntryView>::empty(),
    {
        self.records.clear();
    }

    /// Forgets the entry of one target, if there is one.
    pub fn clear_target(&mut self, target: &str)
        requires
            old(self).wf(),
        ensures
            final(self).wf(),
            final(self)@ == old(self)@.remove(target@),
    {
        let ghost before = record_views(self.records@);
        let key = String::from_str(target);
        match self.position(&key) {
            Some(i) => {
                self.records.remove(i);
                proof {
                    assert(record_views(self.records@) == before.remove(i as int));
                    lemma_map_of_remove(before, i as int);
                }
            },
            None => {
                proof {
                    assert forall|i: int| 0 <= i < before.len() implies (#[trigger] before[i]).0
                        != target@ by {
                        assert(before[i].0 == self.records@[i].0@);
                    }
                    lemma_map_of_misses(before, target@);
                    assert(map_of(before) =~= map_of(before).remove(target@));
                }
            },
        }
    }

    /// Counts the entries, and those of each outcome.
    #[must_use]
    pub fn stats(&self) -> (stats: CacheStats)
        requires
            self.wf(),
        ensures
            stats.total_entries == self@.dom().len(),
            stats.successful_builds == successes(self@),
            stats.failed_builds == self@.dom().len() - successes(self@),
    {
        let ghost all = record_views(self.records@);
        let total = self.records.len();
        let mut successful: usize = 0;
        let mut i: usize = 0;
        proof {
            assert(all.take(0) == Seq::<(Seq<char>, CacheEntryView)>::empty());
            assert(map_of(all.take(0)).dom().filter(
                |k: Seq<char>| map_of(all.take(0))[k].success,
            ) =~= Set::<Seq<char>>::empty());
        }
        while i < total
            invariant
                i <= total,
                total == self.records@.len(),
                all == record_views(self.records@),
                keys_unique(all),
                successful <= i,
                successful == successes(map_of(all.take(i as int))),
            decreases total - i,
        {
            proof {
                let init = all.take(i as int);
                let next = all.take(i + 1);
                assert(next.drop_last() == init);
                assert(next.last() == all[i as int]);
                lemma_map_of_dom(init);
                if map_of(init).dom().contains(all[i as int].0) {
                    let a = choose|a: int|
                        0 <= a < init.len() && (#[trigger] init[a]).0 == all[i as int].0;
                    assert(init[a] == all[a]);
                }
                lemma_successes_insert(map_of(init), all[i as int].0, all[i as int].1);
            }
            if self.records[i].1.success {
                successful = successful + 1;
            }
            i = i + 1;
        }
        proof {
            assert(all.take(i as int) == all);
            lemma_map_of_unique(all);
        }
        CacheStats {
            total_entries: total,
            successful_builds: successful,
            failed_builds: total - successful,
        }
    }
}

impl Default for BuildCache {
    fn default() -> (cache: BuildCache)
        ensures
            cache.wf(),
            cache@ == Map::<Seq<char>, CacheEntryView>::empty(),
    {
        BuildCache::empty()
    }
}

} // verus!
