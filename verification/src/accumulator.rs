//! Per-minute aggregation state.
//!
//! A [`MinuteAccumulator`] owns the counters for the current aggregation
//! window: for every window key the number of seconds that window was active,
//! and the total number of seconds in which any sample was obtained at all.
//! The counters live in a vector of `(key, seconds)` pairs with pairwise
//! distinct keys; specifications speak of the map this vector denotes
//! ([`map_of_pairs`]). Well-formedness ([`MinuteAccumulator::wf`]) also pins
//! the bookkeeping identity that the per-window counters sum to the total.

use vstd::prelude::*;
use crate::key::normalize_exec_name;
use crate::key::spec_normalize_exec_name;
use crate::key::spec_window_key;
use crate::key::window_key;
use vstd::pervasive::VecAdditionalExecFns;

verus! {

/// The summary flushed at the end of an aggregation window: how many seconds
/// were counted and how they distribute over the window keys.
pub struct MinuteActiveSummary {
    /// Seconds of the window in which a sample was successfully obtained.
    pub total_secs: u64,
    /// Active seconds per window key, one entry per key.
    pub by_title_app: Vec<(String, u64)>,
}

/// The per-sample notification for a successful tick. It deliberately carries
/// the raw, un-normalized title but the normalized executable name.
pub struct ActiveWindowPayload {
    /// The window title exactly as the sample reported it (possibly empty).
    pub title: String,
    /// The normalized executable name.
    pub app_name: Option<String>,
}

/// The finite map denoted by a sequence of `(key, seconds)` pairs; on
/// duplicate keys the later entry wins.
pub open spec fn map_of_pairs(s: Seq<(String, u64)>) -> Map<Seq<char>, u64>
    decreases s.len(),
{
    if s.len() == 0 {
        Map::empty()
    } else {
        map_of_pairs(s.drop_last()).insert(s.last().0@, s.last().1)
    }
}

/// The sum of the counter components of a sequence of `(key, seconds)` pairs.
pub open spec fn sum_of_counts(s: Seq<(String, u64)>) -> int
    decreases s.len(),
{
    if s.len() == 0 {
        0
    } else {
        sum_of_counts(s.drop_last()) + s.last().1
    }
}

/// Pairwise distinct keys.
pub open spec fn unique_keys(s: Seq<(String, u64)>) -> bool {
    forall|i: int, j: int| 0 <= i < j < s.len() ==> s[i].0@ != s[j].0@
}

/// The counter stored under `k`, or zero when `k` is absent.
pub open spec fn count_of(m: Map<Seq<char>, u64>, k: Seq<char>) -> u64 {
    if m.contains_key(k) {
        m[k]
    } else {
        0
    }
}

/// One successful sample recorded against key `k`: the counter under `k`
/// grows by one (starting from zero when absent).
pub open spec fn record_step(m: Map<Seq<char>, u64>, k: Seq<char>) -> Map<Seq<char>, u64> {
    m.insert(k, (count_of(m, k) + 1) as u64)
}

impl MinuteActiveSummary {
    /// The per-window counters of the summary, as a map.
    pub open spec fn by_title_app_map(self) -> Map<Seq<char>, u64> {
        map_of_pairs(self.by_title_app@)
    }
}

/// Mutable aggregation state for the current (roughly one-minute) window.
pub struct MinuteAccumulator {
    counts: Vec<(String, u64)>,
    total_seconds: u64,
}

impl MinuteAccumulator {
    /// The per-window counters, as a map from window key to active seconds.
    pub closed spec fn counts_map(self) -> Map<Seq<char>, u64> {
        map_of_pairs(self.counts@)
    }

    /// The sum of all per-window counters.
    pub closed spec fn counts_sum(self) -> int {
        sum_of_counts(self.counts@)
    }

    /// How many distinct window keys have a counter.
    pub closed spec fn num_windows(self) -> nat {
        self.counts@.len()
    }

    /// Seconds of the current window in which a sample was obtained.
    pub closed spec fn total(self) -> u64 {
        self.total_seconds
    }

    /// Internal invariant: one counter per key, and the counters sum to the
    /// seconds counted so far. Established by [`MinuteAccumulator::new`] and
    /// preserved by every operation.
    pub closed spec fn wf(self) -> bool {
        &&& unique_keys(self.counts@)
        &&& sum_of_counts(self.counts@) == self.total_seconds
    }

    /// A fresh accumulator: no counters, zero seconds.
    pub fn new() -> (r: MinuteAccumulator)
        ensures
            r.wf(),
            r.counts_map() == Map::<Seq<char>, u64>::empty(),
            r.num_windows() == 0,
            r.total() == 0,
    {
        MinuteAccumulator { counts: Vec::new(), total_seconds: 0 }
    }

    /// The index of `key` among the counters, if present.
    fn find_key(&self, key: &String) -> (r: Option<usize>)
        ensures
            match r {
                Some(i) => i < self.counts@.len() && self.counts@[i as int].0@ == key@,
                None => forall|j: int|
                    0 <= j < self.counts@.len() ==> self.counts@[j].0@ != key@,
            },
    {
        let n = self.counts.len();
        let mut i: usize = 0;
        while i < n
            invariant
                n == self.counts@.len(),
                i <= n,
                forall|j: int| 0 <= j < i ==> self.counts@[j].0@ != key@,
            decreases n - i,
        {
            let entry = &self.counts[i];
            if entry.0 == *key {
                return Some(i);
            }
            i = i + 1;
        }
        None
    }

    /// Records one successful sample: the counter under the sample's window
    /// key grows by one, the total grows by one, and the notification payload
    /// for the sample is returned — raw title, normalized executable name.
    pub fn record_sample(&mut self, title: &str, exec_name: &str) -> (payload: ActiveWindowPayload)
        requires
            old(self).wf(),
            old(self).total() < u64::MAX,
        ensures
            final(self).wf(),
            final(self).counts_map() == record_step(
                old(self).counts_map(),
                spec_window_key(title@, exec_name@),
            ),
            final(self).total() == old(self).total() + 1,
            payload.title@ == title@,
            payload.app_name matches Some(a) && a@ == spec_normalize_exec_name(exec_name@),
    {
        let key = window_key(title, exec_name);
        let ghost k = key@;
        let ghost s0 = self.counts@;
        match self.find_key(&key) {
            Some(i) => {
                proof {
                    lemma_map_of_pairs_value(s0, i as int);
                    lemma_count_le_sum(s0, i as int);
                }
                let entry_key = self.counts[i].0.clone();
                let cur = self.counts[i].1;
                self.counts.set(i, (entry_key, cur + 1));
                proof {
                    let p = (self.counts@[i as int].0, (cur + 1) as u64);
                    lemma_map_of_pairs_update(s0, i as int, p);
                    lemma_sum_update(s0, i as int, p);
                    assert(unique_keys(self.counts@));
                }
            },
            None => {
                proof {
                    lemma_map_of_pairs_contains(s0, k);
                    lemma_sum_nonneg(s0);
                }
                self.counts.push((key, 1));
                proof {
                    assert(self.counts@.drop_last() =~= s0);
                    assert(unique_keys(self.counts@));
                }
            },
        }
        self.total_seconds = self.total_seconds + 1;
        ActiveWindowPayload {
            title: String::from_str(title),
            app_name: Some(normalize_exec_name(exec_name)),
        }
    }

    /// Returns the accumulated active seconds for the window identified by
    /// the raw `title` and `exec_name` (zero when that window was never
    /// sampled in the current aggregation window).
    pub fn seconds_for(&self, title: &str, exec_name: &str) -> (r: u64)
        requires
            self.wf(),
        ensures
            r == count_of(self.counts_map(), spec_window_key(title@, exec_name@)),
    {
        let key = window_key(title, exec_name);
        match self.find_key(&key) {
            Some(i) => {
                proof {
                    lemma_map_of_pairs_value(self.counts@, i as int);
                }
                self.counts[i].1
            },
            None => {
                proof {
                    lemma_map_of_pairs_contains(self.counts@, key@);
                }
                0
            },
        }
    }

    /// Seconds of the current window in which a sample was obtained.
    pub fn total_secs_so_far(&self) -> (r: u64)
        ensures
            r == self.total(),
    {
        self.total_seconds
    }

    /// How many distinct window keys currently have a counter. Zero exactly
    /// when no sample has been recorded since the last flush.
    pub fn window_count(&self) -> (r: usize)
        ensures
            r == self.num_windows(),
            (r == 0) <==> self.counts_map() == Map::<Seq<char>, u64>::empty(),
    {
        proof {
            if self.counts@.len() > 0 {
                lemma_map_of_pairs_contains(self.counts@, self.counts@[0].0@);
                assert(self.counts_map().contains_key(self.counts@[0].0@));
            } else {
                assert(self.counts@ =~= Seq::<(String, u64)>::empty());
            }
        }
        self.counts.len()
    }

    /// Ends the current aggregation window: returns the summary of its
    /// counters and resets the accumulator to the empty state.
    pub fn flush(&mut self) -> (summary: MinuteActiveSummary)
        requires
            old(self).wf(),
        ensures
            summary.total_secs == old(self).total(),
            summary.by_title_app_map() == old(self).counts_map(),
            summary.by_title_app@ == old(self).counts_view(),
            unique_keys(summary.by_title_app@),
            sum_of_counts(summary.by_title_app@) == summary.total_secs,
            final(self).wf(),
            final(self).counts_map() == Map::<Seq<char>, u64>::empty(),
            final(self).num_windows() == 0,
            final(self).total() == 0,
    {
        let mut drained: Vec<(String, u64)> = Vec::new();
        core::mem::swap(&mut drained, &mut self.counts);
        let total = self.total_seconds;
        self.total_seconds = 0;
        proof {
            assert(self.counts@ =~= Seq::<(String, u64)>::empty());
        }
        MinuteActiveSummary { total_secs: total, by_title_app: drained }
    }

    /// The raw counter entries, in insertion order.
    pub closed spec fn counts_view(self) -> Seq<(String, u64)> {
        self.counts@
    }
}

/// The per-window counters always sum to the seconds counted: every second
/// counted in `total` was attributed to exactly one window key, and failed
/// ticks were attributed to none.
pub proof fn lemma_counts_sum_to_total(acc: MinuteAccumulator)
    requires
        acc.wf(),
    ensures
        acc.counts_sum() == acc.total(),
{
}

proof fn lemma_sum_nonneg(s: Seq<(String, u64)>)
    ensures
        0 <= sum_of_counts(s),
    decreases s.len(),
{
    if s.len() > 0 {
        lemma_sum_nonneg(s.drop_last());
    }
}

proof fn lemma_count_le_sum(s: Seq<(String, u64)>, i: int)
    requires
        0 <= i < s.len(),
    ensures
        s[i].1 <= sum_of_counts(s),
    decreases s.len(),
{
    if i == s.len() - 1 {
        lemma_sum_nonneg(s.drop_last());
    } else {
        lemma_count_le_sum(s.drop_last(), i);
        assert(s.drop_last()[i] == s[i]);
    }
}

proof fn lemma_map_of_pairs_contains(s: Seq<(String, u64)>, k: Seq<char>)
    ensures
        map_of_pairs(s).contains_key(k) <==> exists|i: int| 0 <= i < s.len() && s[i].0@ == k,
    decreases s.len(),
{
    if s.len() > 0 {
        lemma_map_of_pairs_contains(s.drop_last(), k);
        if s.last().0@ == k {
            assert(s[s.len() - 1].0@ == k);
        } else {
            if map_of_pairs(s).contains_key(k) {
                let i = choose|i: int|
                    0 <= i < s.drop_last().len() && s.drop_last()[i].0@ == k;
                assert(s[i].0@ == k);
            }
            if exists|i: int| 0 <= i < s.len() && s[i].0@ == k {
                let i = choose|i: int| 0 <= i < s.len() && s[i].0@ == k;
                assert(s.drop_last()[i].0@ == k);
            }
        }
    }
}

proof fn lemma_map_of_pairs_value(s: Seq<(String, u64)>, i: int)
    requires
        unique_keys(s),
        0 <= i < s.len(),
    ensures
        map_of_pairs(s).contains_key(s[i].0@),
        map_of_pairs(s)[s[i].0@] == s[i].1,
    decreases s.len(),
{
    if i < s.len() - 1 {
        assert(unique_keys(s.drop_last()));
        lemma_map_of_pairs_value(s.drop_last(), i);
        assert(s.drop_last()[i] == s[i]);
        assert(s.last().0@ != s[i].0@);
    }
}

proof fn lemma_map_of_pairs_update(s: Seq<(String, u64)>, i: int, p: (String, u64))
    requires
        unique_keys(s),
        0 <= i < s.len(),
        p.0@ == s[i].0@,
    ensures
        map_of_pairs(s.update(i, p)) == map_of_pairs(s).insert(p.0@, p.1),
    decreases s.len(),
{
    let t = s.update(i, p);
    if i == s.len() - 1 {
        assert(t.drop_last() =~= s.drop_last());
        assert(t.last() == p);
        assert(map_of_pairs(s.drop_last()).insert(s.last().0@, s.last().1).insert(p.0@, p.1)
            =~= map_of_pairs(s.drop_last()).insert(p.0@, p.1));
    } else {
        assert(unique_keys(s.drop_last()));
        assert(s.drop_last()[i] == s[i]);
        lemma_map_of_pairs_update(s.drop_last(), i, p);
        assert(t.drop_last() =~= s.drop_last().update(i, p));
        assert(t.last() == s.last());
        assert(s.last().0@ != p.0@);
        assert(map_of_pairs(s.drop_last()).insert(p.0@, p.1).insert(s.last().0@, s.last().1)
            =~= map_of_pairs(s.drop_last()).insert(s.last().0@, s.last().1).insert(p.0@, p.1));
    }
}

proof fn lemma_sum_update(s: Seq<(String, u64)>, i: int, p: (String, u64))
    requires
        0 <= i < s.len(),
    ensures
        sum_of_counts(s.update(i, p)) == sum_of_counts(s) - s[i].1 + p.1,
    decreases s.len(),
{
    let t = s.update(i, p);
    if i == s.len() - 1 {
        assert(t.drop_last() =~= s.drop_last());
    } else {
        lemma_sum_update(s.drop_last(), i, p);
        assert(t.drop_last() =~= s.drop_last().update(i, p));
        assert(t.last() == s.last());
        assert(s.drop_last()[i] == s[i]);
    }
}

} // verus!
