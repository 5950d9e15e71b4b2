//! The recency cache of observed messages: the `lru` crate's cache, what is
//! taken on trust of it, and what follows for the bot.

use crate::handler::{MessageLite, MessageLiteView};
use lru::LruCache;
use std::num::NonZeroUsize;
use vstd::prelude::*;
use vstd::seq_lib::seq_to_set_is_finite;
use vstd::set_lib::lemma_len_subset;

verus! {

/// The largest capacity a cache is made with. The cache allocates its whole
/// table when it is made, so the bound keeps that allocation modest.
pub const MAX_CAPACITY: usize = 1_048_576;

/// Cached records by message id, most recently used first.
pub type Entries = Seq<(u64, MessageLiteView)>;

/// `lru::LruCache`, opaque to the verifier: its contents are spoken of through
/// `cache_entries` and `cache_capacity`.
#[verifier::external_type_specification]
#[verifier::external_body]
#[verifier::reject_recursive_types(K)]
#[verifier::reject_recursive_types(V)]
#[verifier::reject_recursive_types(S)]
pub struct ExLruCache<K, V, S>(LruCache<K, V, S>);

/// The entries a cache holds, from the most recently used to the least.
pub uninterp spec fn cache_entries(cache: LruCache<u64, MessageLite>) -> Seq<(u64, MessageLiteView)>;

/// The number of entries a cache was made to hold.
pub uninterp spec fn cache_capacity(cache: LruCache<u64, MessageLite>) -> nat;

/// Whether some entry is filed under `id`.
pub open spec fn has_key(entries: Entries, id: u64) -> bool {
    exists|i: int| 0 <= i < entries.len() && (#[trigger] entries[i]).0 == id
}

/// The place of an entry filed under `id`, where there is one.
pub open spec fn key_index(entries: Entries, id: u64) -> int {
    choose|i: int| 0 <= i < entries.len() && (#[trigger] entries[i]).0 == id
}

/// The record filed under `id`, if any.
pub open spec fn lookup(entries: Entries, id: u64) -> Option<MessageLiteView> {
    if has_key(entries, id) {
        Some(entries[key_index(entries, id)].1)
    } else {
        None
    }
}

/// The entries after a lookup of `id`: a hit moves the entry to the front, a
/// miss changes nothing.
pub open spec fn entries_after_get(entries: Entries, id: u64) -> Entries {
    if has_key(entries, id) {
        let i = key_index(entries, id);
        seq![entries[i]] + entries.remove(i)
    } else {
        entries
    }
}

/// The entries after `record` is put under `id` into a cache of `capacity`
/// entries: the new entry goes to the front; it replaces an entry of the same
/// id, or else, when the cache is full, the least recently used entry leaves.
pub open spec fn entries_after_put(
    entries: Entries,
    capacity: nat,
    id: u64,
    record: MessageLiteView,
) -> Entries {
    if has_key(entries, id) {
        seq![(id, record)] + entries.remove(key_index(entries, id))
    } else if entries.len() == capacity {
        seq![(id, record)] + entries.drop_last()
    } else {
        seq![(id, record)] + entries
    }
}

/// `LruCache::new`: an empty cache of the given capacity. The capacity is
/// bounded because the call allocates the whole table at once.
#[verifier::external_body]
pub(crate) fn lru_new(capacity: usize) -> (cache: LruCache<u64, MessageLite>)
    requires
        0 < capacity <= MAX_CAPACITY,
    ensures
        cache_entries(cache) == Entries::empty(),
        cache_capacity(cache) == capacity,
{
    LruCache::new(NonZeroUsize::new(capacity).unwrap())
}

/// `LruCache::cap`: the capacity the cache was made with.
#[verifier::external_body]
pub(crate) fn lru_cap(cache: &LruCache<u64, MessageLite>) -> (capacity: usize)
    ensures
        capacity == cache_capacity(*cache),
{
    cache.cap().get()
}

/// `LruCache::len`: the number of entries held.
#[verifier::external_body]
pub(crate) fn lru_len(cache: &LruCache<u64, MessageLite>) -> (len: usize)
    ensures
        len == cache_entries(*cache).len(),
{
    cache.len()
}

/// `LruCache::put`: files `record` under `id` as the most recently used
/// entry. An entry already filed under `id` is replaced; otherwise a full
/// cache drops its least recently used entry. The capacity stays.
#[verifier::external_body]
pub(crate) fn lru_put(cache: &mut LruCache<u64, MessageLite>, id: u64, record: MessageLite)
    ensures
        cache_capacity(*final(cache)) == cache_capacity(*old(cache)),
        cache_entries(*final(cache)) == entries_after_put(
            cache_entries(*old(cache)),
            cache_capacity(*old(cache)),
            id,
            record@,
        ),
{
    cache.put(id, record);
}

/// `LruCache::get`: a copy of the record filed under `id`, which becomes the
/// most recently used entry; `None`, and no change, where there is none.
#[verifier::external_body]
pub(crate) fn lru_get(cache: &mut LruCache<u64, MessageLite>, id: u64) -> (found: Option<
    MessageLite,
>)
    ensures
        cache_capacity(*final(cache)) == cache_capacity(*old(cache)),
        cache_entries(*final(cache)) == entries_after_get(cache_entries(*old(cache)), id),
        found is Some == has_key(cache_entries(*old(cache)), id),
        found matches Some(record) ==> Some(record@) == lookup(cache_entries(*old(cache)), id),
{
    cache.get(&id).cloned()
}

/// No two entries are filed under the same id.
pub open spec fn distinct_keys(entries: Entries) -> bool {
    forall|i: int, j: int|
        0 <= i < j < entries.len() ==> (#[trigger] entries[i]).0 != (#[trigger] entries[j]).0
}

/// Every entry is filed under the id of its own record.
pub open spec fn filed_by_id(entries: Entries) -> bool {
    forall|i: int| 0 <= i < entries.len() ==> (#[trigger] entries[i]).0 == entries[i].1.id
}

/// What holds of the contents of every cache the library makes: a positive
/// capacity that the entries never exceed, one entry per id, each under the
/// id of its record.
pub open spec fn cache_wf(entries: Entries, capacity: nat) -> bool {
    &&& 0 < capacity
    &&& entries.len() <= capacity
    &&& distinct_keys(entries)
    &&& filed_by_id(entries)
}

/// With one entry per id, the entry at place `i` is the one its id finds.
pub proof fn lemma_key_at(entries: Entries, i: int)
    requires
        distinct_keys(entries),
        0 <= i < entries.len(),
    ensures
        has_key(entries, entries[i].0),
        key_index(entries, entries[i].0) == i,
        lookup(entries, entries[i].0) == Some(entries[i].1),
{
    let id = entries[i].0;
    let k = key_index(entries, id);
    assert(0 <= k < entries.len() && entries[k].0 == id);
    if k < i {
        assert(entries[k].0 != entries[i].0);
    } else if i < k {
        assert(entries[i].0 != entries[k].0);
    }
}

/// A lookup keeps the cache well formed and keeps what every id finds.
pub proof fn lemma_get_keeps(entries: Entries, capacity: nat, id: u64, other: u64)
    requires
        cache_wf(entries, capacity),
    ensures
        cache_wf(entries_after_get(entries, id), capacity),
        entries_after_get(entries, id).len() == entries.len(),
        has_key(entries, id) ==> entries_after_get(entries, id)[0] == (
            id,
            lookup(entries, id).unwrap(),
        ),
        has_key(entries_after_get(entries, id), other) == has_key(entries, other),
        lookup(entries_after_get(entries, id), other) == lookup(entries, other),
{
    let after = entries_after_get(entries, id);
    if has_key(entries, id) {
        let i = key_index(entries, id);
        assert(0 <= i < entries.len() && entries[i].0 == id);
        assert(after.len() == entries.len());
        assert forall|j: int| 0 <= j < after.len() implies #[trigger] after[j] == entries[if j
            == 0 {
            i
        } else if j <= i {
            j - 1
        } else {
            j
        }] by {}
        assert(distinct_keys(after)) by {
            assert forall|a: int, b: int| 0 <= a < b < after.len() implies (#[trigger] after[a]).0
                != (#[trigger] after[b]).0 by {
                let fa = if a == 0 { i } else if a <= i { a - 1 } else { a };
                let fb = if b <= i { b - 1 } else { b };
                assert(after[a] == entries[fa]);
                assert(after[b] == entries[fb]);
                if fa < fb {
                    assert(entries[fa].0 != entries[fb].0);
                } else {
                    assert(entries[fb].0 != entries[fa].0);
                }
            }
        }
        assert(filed_by_id(after));
        if has_key(entries, other) {
            let k = key_index(entries, other);
            assert(0 <= k < entries.len() && entries[k].0 == other);
            let m = if k == i { 0 } else if k < i { k + 1 } else { k };
            assert(after[m] == entries[k]);
            lemma_key_at(entries, k);
            lemma_key_at(after, m);
        } else if has_key(after, other) {
            let m = key_index(after, other);
            assert(0 <= m < after.len() && after[m].0 == other);
            let k = if m == 0 { i } else if m <= i { m - 1 } else { m };
            assert(after[m] == entries[k]);
            assert(entries[k].0 == other);
        }
        lemma_key_at(entries, i);
    }
}

/// An insertion keeps the cache well formed and puts the record in front,
/// where its id finds it. The cache grows by one entry unless the id was
/// filed already or the cache was full.
pub proof fn lemma_put_keeps(entries: Entries, capacity: nat, record: MessageLiteView)
    requires
        cache_wf(entries, capacity),
    ensures
        cache_wf(entries_after_put(entries, capacity, record.id, record), capacity),
        entries_after_put(entries, capacity, record.id, record)[0] == (record.id, record),
        lookup(entries_after_put(entries, capacity, record.id, record), record.id) == Some(record),
        entries_after_put(entries, capacity, record.id, record).len() == if has_key(
            entries,
            record.id,
        ) || entries.len() == capacity {
            entries.len()
        } else {
            entries.len() + 1
        },
{
    let id = record.id;
    let after = entries_after_put(entries, capacity, id, record);
    if has_key(entries, id) {
        let i = key_index(entries, id);
        assert(0 <= i < entries.len() && entries[i].0 == id);
        assert forall|j: int| 1 <= j < after.len() implies #[trigger] after[j] == entries[if j
            <= i {
            j - 1
        } else {
            j
        }] by {}
        assert(distinct_keys(after)) by {
            assert forall|a: int, b: int| 0 <= a < b < after.len() implies (#[trigger] after[a]).0
                != (#[trigger] after[b]).0 by {
                let fb = if b <= i { b - 1 } else { b };
                assert(after[b] == entries[fb]);
                if a == 0 {
                    if fb < i {
                        assert(entries[fb].0 != entries[i].0);
                    } else {
                        assert(entries[i].0 != entries[fb].0);
                    }
                } else {
                    let fa = if a <= i { a - 1 } else { a };
                    assert(after[a] == entries[fa]);
                    assert(entries[fa].0 != entries[fb].0);
                }
            }
        }
        assert(filed_by_id(after));
    } else {
        let kept = if entries.len() == capacity { entries.drop_last() } else { entries };
        assert(after == seq![(id, record)] + kept);
        assert forall|j: int| 1 <= j < after.len() implies #[trigger] after[j] == entries[j - 1] by {}
        assert(distinct_keys(after)) by {
            assert forall|a: int, b: int| 0 <= a < b < after.len() implies (#[trigger] after[a]).0
                != (#[trigger] after[b]).0 by {
                assert(after[b] == entries[b - 1]);
                if a == 0 {
                    assert(entries[b - 1].0 != id);
                } else {
                    assert(after[a] == entries[a - 1]);
                    assert(entries[a - 1].0 != entries[b - 1].0);
                }
            }
        }
        assert(filed_by_id(after));
    }
    lemma_key_at(after, 0);
}

/// An insertion leaves every other id what it found, but for the one entry
/// that it evicts: the least recently used one, and only where the cache was
/// full and the id put was not filed yet.
pub proof fn lemma_put_keeps_others(
    entries: Entries,
    capacity: nat,
    record: MessageLiteView,
    other: u64,
)
    requires
        cache_wf(entries, capacity),
        other != record.id,
    ensures
        lookup(entries_after_put(entries, capacity, record.id, record), other) == if !has_key(
            entries,
            record.id,
        ) && entries.len() == capacity && entries.last().0 == other {
            None
        } else {
            lookup(entries, other)
        },
{
    let id = record.id;
    let after = entries_after_put(entries, capacity, id, record);
    lemma_put_keeps(entries, capacity, record);
    if has_key(entries, id) {
        let i = key_index(entries, id);
        assert(0 <= i < entries.len() && entries[i].0 == id);
        assert forall|j: int| 1 <= j < after.len() implies #[trigger] after[j] == entries[if j
            <= i {
            j - 1
        } else {
            j
        }] by {}
        if has_key(entries, other) {
            let k = key_index(entries, other);
            assert(0 <= k < entries.len() && entries[k].0 == other);
            let m = if k < i { k + 1 } else { k };
            assert(after[m] == entries[k]);
            lemma_key_at(entries, k);
            lemma_key_at(after, m);
        } else if has_key(after, other) {
            let m = key_index(after, other);
            assert(0 <= m < after.len() && after[m].0 == other);
            let k = if m <= i { m - 1 } else { m };
            assert(after[m] == entries[k]);
        }
    } else {
        assert forall|j: int| 1 <= j < after.len() implies #[trigger] after[j] == entries[j - 1] by {}
        if has_key(after, other) {
            let m = key_index(after, other);
            assert(0 <= m < after.len() && after[m].0 == other);
            assert(after[m] == entries[m - 1]);
            lemma_key_at(entries, m - 1);
            lemma_key_at(after, m);
            if entries.len() == capacity {
                assert(entries[m - 1].0 != entries.last().0);
            }
        } else if has_key(entries, other) {
            let k = key_index(entries, other);
            assert(0 <= k < entries.len() && entries[k].0 == other);
            if k + 1 < after.len() {
                assert(after[k + 1] == entries[k]);
            }
        }
    }
}

/// The entries after the records are put one after another, each under its
/// own id.
pub open spec fn entries_after_puts(
    entries: Entries,
    capacity: nat,
    records: Seq<MessageLiteView>,
) -> Entries
    decreases records.len(),
{
    if records.len() == 0 {
        entries
    } else {
        entries_after_put(
            entries_after_puts(entries, capacity, records.drop_last()),
            capacity,
            records.last().id,
            records.last(),
        )
    }
}

/// No two of the records carry the same id.
pub open spec fn distinct_ids(records: Seq<MessageLiteView>) -> bool {
    forall|i: int, j: int|
        0 <= i < j < records.len() ==> (#[trigger] records[i]).id != (#[trigger] records[j]).id
}

/// After a run of insertions under distinct ids the cache is well formed and
/// its front holds the records put last, the newest first.
pub proof fn lemma_puts_lead(entries: Entries, capacity: nat, records: Seq<MessageLiteView>)
    requires
        cache_wf(entries, capacity),
        distinct_ids(records),
    ensures
        cache_wf(entries_after_puts(entries, capacity, records), capacity),
        entries_after_puts(entries, capacity, records).len() >= records.len()
            || entries_after_puts(entries, capacity, records).len() == capacity,
        forall|i: int|
            0 <= i < records.len() && i < capacity ==> #[trigger] entries_after_puts(
                entries,
                capacity,
                records,
            )[i] == (records[records.len() - 1 - i].id, records[records.len() - 1 - i]),
    decreases records.len(),
{
    if records.len() > 0 {
        let n = records.len() as int;
        let earlier = records.drop_last();
        let before = entries_after_puts(entries, capacity, earlier);
        let newest = records.last();
        let after = entries_after_put(before, capacity, newest.id, newest);
        lemma_puts_lead(entries, capacity, earlier);
        lemma_put_keeps(before, capacity, newest);
        assert forall|i: int| 0 <= i < n - 1 && i < capacity implies (#[trigger] before[i]).0
            != newest.id by {
            assert(before[i] == (earlier[n - 2 - i].id, earlier[n - 2 - i]));
            assert(records[n - 2 - i].id != records[n - 1].id);
        }
        assert forall|i: int| 0 <= i < n && i < capacity implies #[trigger] after[i] == (
            records[n - 1 - i].id,
            records[n - 1 - i],
        ) by {
            if i > 0 {
                assert(before[i - 1] == (earlier[n - 1 - i].id, earlier[n - 1 - i]));
                if has_key(before, newest.id) {
                    let k = key_index(before, newest.id);
                    assert(0 <= k < before.len() && before[k].0 == newest.id);
                    assert(k >= n - 1 || k >= capacity);
                    assert(after[i] == before.remove(k)[i - 1]);
                } else {
                    assert(after[i] == before[i - 1]);
                }
            }
        }
    }
}

/// Eviction. Putting one record more than the cache holds, all under distinct
/// ids, leaves exactly `capacity` entries: the first record put is gone, and
/// each later one is found under its id.
pub proof fn lemma_overflow_evicts_first(
    entries: Entries,
    capacity: nat,
    records: Seq<MessageLiteView>,
)
    requires
        cache_wf(entries, capacity),
        distinct_ids(records),
        records.len() == capacity + 1,
    ensures
        entries_after_puts(entries, capacity, records).len() == capacity,
        !has_key(entries_after_puts(entries, capacity, records), records[0].id),
        forall|i: int|
            1 <= i <= capacity ==> lookup(
                entries_after_puts(entries, capacity, records),
                (#[trigger] records[i]).id,
            ) == Some(records[i]),
{
    let after = entries_after_puts(entries, capacity, records);
    lemma_puts_lead(entries, capacity, records);
    if has_key(after, records[0].id) {
        let k = key_index(after, records[0].id);
        assert(0 <= k < after.len() && after[k].0 == records[0].id);
        assert(after[k] == (records[capacity - k].id, records[capacity - k]));
        assert(records[0].id != records[capacity - k].id);
    }
    assert forall|i: int| 1 <= i <= capacity implies lookup(after, (#[trigger] records[i]).id)
        == Some(records[i]) by {
        assert(after[capacity - i] == (records[i].id, records[i]));
        lemma_key_at(after, capacity - i);
    }
}

/// The ids under which the records are put.
pub open spec fn ids_of(records: Seq<MessageLiteView>) -> Set<u64> {
    records.map_values(|record: MessageLiteView| record.id).to_set()
}

/// The ids of the first of the records are among the ids of all of them.
proof fn lemma_ids_of_earlier(records: Seq<MessageLiteView>)
    requires
        records.len() > 0,
    ensures
        ids_of(records.drop_last()).subset_of(ids_of(records)),
        ids_of(records).contains(records.last().id),
        ids_of(records).finite(),
        ids_of(records.drop_last()).len() <= ids_of(records).len(),
{
    let ids = records.map_values(|record: MessageLiteView| record.id);
    let earlier = records.drop_last().map_values(|record: MessageLiteView| record.id);
    assert forall|id: u64| ids_of(records.drop_last()).contains(id) implies ids_of(
        records,
    ).contains(id) by {
        let i = choose|i: int| 0 <= i < earlier.len() && earlier[i] == id;
        assert(ids[i] == id);
    }
    assert(ids[records.len() - 1] == records.last().id);
    seq_to_set_is_finite(ids);
    lemma_len_subset(ids_of(records.drop_last()), ids_of(records));
}

/// Through a run of insertions that name fewer than `capacity` ids, none of
/// them the id of the entry in front, that entry stays in the cache, and
/// every entry before it was put by the run.
proof fn lemma_front_stays(entries: Entries, capacity: nat, records: Seq<MessageLiteView>)
    requires
        cache_wf(entries, capacity),
        entries.len() > 0,
        !ids_of(records).contains(entries[0].0),
        ids_of(records).len() < capacity,
    ensures
        cache_wf(entries_after_puts(entries, capacity, records), capacity),
        exists|p: int|
            0 <= p < entries_after_puts(entries, capacity, records).len()
                && #[trigger] entries_after_puts(entries, capacity, records)[p] == entries[0]
                && forall|i: int|
                0 <= i < p ==> ids_of(records).contains(
                    (#[trigger] entries_after_puts(entries, capacity, records)[i]).0,
                ),
    decreases records.len(),
{
    if records.len() == 0 {
        assert(entries_after_puts(entries, capacity, records)[0] == entries[0]);
    } else {
        let earlier = records.drop_last();
        let before = entries_after_puts(entries, capacity, earlier);
        let newest = records.last();
        let after = entries_after_put(before, capacity, newest.id, newest);
        assert(after == entries_after_puts(entries, capacity, records));
        lemma_ids_of_earlier(records);
        lemma_front_stays(entries, capacity, earlier);
        lemma_put_keeps(before, capacity, newest);
        let p = choose|p: int|
            0 <= p < before.len() && #[trigger] before[p] == entries[0] && forall|i: int|
                0 <= i < p ==> ids_of(earlier).contains((#[trigger] before[i]).0);
        assert(newest.id != entries[0].0);
        let q = if has_key(before, newest.id) && key_index(before, newest.id) < p {
            p
        } else {
            p + 1
        };
        if has_key(before, newest.id) {
            let k = key_index(before, newest.id);
            assert(0 <= k < before.len() && before[k].0 == newest.id);
            assert(k != p);
            assert(after[q] == before.remove(k)[q - 1]);
            assert forall|i: int| 0 <= i < q implies ids_of(records).contains(
                (#[trigger] after[i]).0,
            ) by {
                if i > 0 {
                    assert(after[i] == before.remove(k)[i - 1]);
                    if i - 1 < k {
                        assert(ids_of(earlier).contains(before[i - 1].0));
                    } else {
                        assert(ids_of(earlier).contains(before[i].0));
                    }
                }
            }
        } else {
            if before.len() == capacity {
                let ahead = Seq::new((p + 1) as nat, |i: int| if i < p { before[i].0 } else { newest.id });
                assert(ahead.no_duplicates()) by {
                    assert forall|i: int, j: int|
                        0 <= i < ahead.len() && 0 <= j < ahead.len() && i != j implies ahead[i]
                        != ahead[j] by {
                        if i < p && j < p {
                            if i < j {
                                assert(before[i].0 != before[j].0);
                            } else {
                                assert(before[j].0 != before[i].0);
                            }
                        } else if i < p {
                            assert(before[i].0 != newest.id);
                        } else {
                            assert(before[j].0 != newest.id);
                        }
                    }
                }
                assert(ahead.to_set().subset_of(ids_of(records))) by {
                    assert forall|id: u64| ahead.to_set().contains(id) implies ids_of(
                        records,
                    ).contains(id) by {
                        let i = choose|i: int| 0 <= i < ahead.len() && ahead[i] == id;
                        if i < p {
                            assert(ids_of(earlier).contains(before[i].0));
                        }
                    }
                }
                ahead.unique_seq_to_set();
                lemma_len_subset(ahead.to_set(), ids_of(records));
                assert(p + 1 < capacity);
            }
            assert(after[q] == before[p]);
            assert forall|i: int| 0 <= i < q implies ids_of(records).contains(
                (#[trigger] after[i]).0,
            ) by {
                if i > 0 {
                    assert(after[i] == before[i - 1]);
                    assert(ids_of(earlier).contains(before[i - 1].0));
                }
            }
        }
        assert(0 <= q < after.len() && after[q] == entries[0]);
    }
}

/// Recency. An entry that a lookup has just hit is still found, with the same
/// record, after any run of insertions that name fewer than `capacity` ids,
/// none of them its own.
pub proof fn lemma_hit_survives_puts(
    entries: Entries,
    capacity: nat,
    id: u64,
    records: Seq<MessageLiteView>,
)
    requires
        cache_wf(entries, capacity),
        has_key(entries, id),
        !ids_of(records).contains(id),
        ids_of(records).len() < capacity,
    ensures
        lookup(entries_after_puts(entries_after_get(entries, id), capacity, records), id)
            == lookup(entries, id),
{
    let touched = entries_after_get(entries, id);
    let after = entries_after_puts(touched, capacity, records);
    lemma_get_keeps(entries, capacity, id, id);
    lemma_front_stays(touched, capacity, records);
    let p = choose|p: int|
        0 <= p < after.len() && #[trigger] after[p] == touched[0] && forall|i: int|
            0 <= i < p ==> ids_of(records).contains((#[trigger] after[i]).0);
    lemma_key_at(after, p);
}

/// Recency, counted in insertions: an entry that a lookup has just hit is
/// still found after fewer than `capacity` insertions under other ids.
pub proof fn lemma_hit_survives_few_puts(
    entries: Entries,
    capacity: nat,
    id: u64,
    records: Seq<MessageLiteView>,
)
    requires
        cache_wf(entries, capacity),
        has_key(entries, id),
        records.len() < capacity,
        forall|i: int| 0 <= i < records.len() ==> (#[trigger] records[i]).id != id,
    ensures
        lookup(entries_after_puts(entries_after_get(entries, id), capacity, records), id)
            == lookup(entries, id),
{
    let ids = records.map_values(|record: MessageLiteView| record.id);
    ids.lemma_cardinality_of_set();
    if ids_of(records).contains(id) {
        let i = choose|i: int| 0 <= i < ids.len() && ids[i] == id;
        assert(records[i].id == id);
    }
    lemma_hit_survives_puts(entries, capacity, id, records);
}

} // verus!
