//! Properties that hold across the partition operations.
use vstd::prelude::*;
use crate::record::{DatabaseRecord, uniques_of, has_unique_keys, has_key};
use crate::partition::{put_record, put_records, first_with_key, is_first_with_key};
use crate::utils::colliding_uniques;
use crate::database::{Stored, initialize_outcome};
use crate::error::Result;

verus! {

/// An insert that succeeds leaves no two records with one key.
pub proof fn law_insert_keeps_keys_unique<T: DatabaseRecord>(current: Seq<T>, new_records: Seq<T>)
    requires
        forall|k: u64| !colliding_uniques(current, new_records, k),
    ensures
        has_unique_keys(current + new_records),
{
    let all = current + new_records;
    assert(uniques_of(all) == uniques_of(current) + uniques_of(new_records));
    assert forall|i: int, j: int| 0 <= i < uniques_of(all).len() && 0 <= j < uniques_of(all).len() && i != j
        implies uniques_of(all)[i] != uniques_of(all)[j] by {
        if uniques_of(all)[i] == uniques_of(all)[j] {
            let k = uniques_of(all)[i];
            if i < j {
                assert(colliding_uniques(current, new_records, k));
            } else {
                assert(colliding_uniques(current, new_records, k));
            }
        }
    }
}

/// Putting one record keeps the keys unique: it replaces the record with its
/// key, or is appended only where no record has that key.
proof fn lemma_put_record_keeps_keys_unique<T: DatabaseRecord>(s: Seq<T>, u: T, append: bool)
    requires
        has_unique_keys(s),
    ensures
        has_unique_keys(put_record(s, u, append)),
{
    let k = u.unique_spec();
    if has_key(s, k) {
        let i = choose|i: int| 0 <= i < uniques_of(s).len() && uniques_of(s)[i] == k;
        lemma_unique_key_index(s, k, i);
        let t = s.update(first_with_key(s, k), u);
        assert(uniques_of(t) == uniques_of(s));
    } else if append {
        let t = s.push(u);
        assert(uniques_of(t) == uniques_of(s).push(k));
    }
}

/// With unique keys, the one record with key `k` is the first one.
proof fn lemma_unique_key_index<T: DatabaseRecord>(s: Seq<T>, k: u64, i: int)
    requires
        has_unique_keys(s),
        0 <= i < s.len(),
        s[i].unique_spec() == k,
    ensures
        first_with_key(s, k) == i,
        is_first_with_key(s, k, i),
{
    assert forall|j: int| 0 <= j < i implies s[j].unique_spec() != k by {
        assert(uniques_of(s)[j] != uniques_of(s)[i]);
    }
    let c = first_with_key(s, k);
    assert(is_first_with_key(s, k, i));
    assert(is_first_with_key(s, k, c));
    if c < i {
        assert(s[c].unique_spec() != k);
    } else if c > i {
        assert(s[i].unique_spec() != k);
    }
}

/// Updates and upserts keep the keys of a partition unique.
pub proof fn law_put_records_keeps_keys_unique<T: DatabaseRecord>(current: Seq<T>, ups: Seq<T>, append: bool)
    requires
        has_unique_keys(current),
    ensures
        has_unique_keys(put_records(current, ups, append)),
    decreases ups.len(),
{
    if ups.len() > 0 {
        law_put_records_keeps_keys_unique(current, ups.drop_last(), append);
        lemma_put_record_keeps_keys_unique(put_records(current, ups.drop_last(), append), ups.last(), append);
    }
}

/// Inserting a record whose key is already stored fails.
pub proof fn law_insert_of_stored_key_fails<T: DatabaseRecord>(
    current: Seq<T>,
    new_records: Seq<T>,
    i: int,
    j: int,
)
    requires
        0 <= i < current.len(),
        0 <= j < new_records.len(),
        current[i].unique_spec() == new_records[j].unique_spec(),
    ensures
        colliding_uniques(current, new_records, current[i].unique_spec()),
{
    let all = uniques_of(current) + uniques_of(new_records);
    assert(all[i] == current[i].unique_spec());
    assert(all[current.len() + j] == new_records[j].unique_spec());
}

/// Updating a record whose key is not stored fails.
pub proof fn law_update_of_missing_key_fails<T: DatabaseRecord>(current: Seq<T>, updates: Seq<T>, j: int)
    requires
        0 <= j < updates.len(),
        !has_key(current, updates[j].unique_spec()),
    ensures
        !(forall|k: u64| uniques_of(updates).contains(k) ==> uniques_of(current).contains(k)),
{
    assert(uniques_of(updates)[j] == updates[j].unique_spec());
}

/// Upserting two records with one key leaves exactly one record with that
/// key: the second.
pub proof fn law_upsert_same_key_twice<T: DatabaseRecord>(current: Seq<T>, a: T, b: T)
    requires
        has_unique_keys(current),
        a.unique_spec() == b.unique_spec(),
    ensures
        ({
            let s = put_records(put_records(current, seq![a], true), seq![b], true);
            &&& has_unique_keys(s)
            &&& has_key(s, b.unique_spec())
            &&& forall|i: int| 0 <= i < s.len() && s[i].unique_spec() == b.unique_spec() ==> s[i] == b
        }),
{
    let k = b.unique_spec();
    let s1 = put_records(current, seq![a], true);
    assert(seq![a].drop_last() =~= Seq::<T>::empty());
    assert(seq![b].drop_last() =~= Seq::<T>::empty());
    assert(put_records(current, seq![a].drop_last(), true) == current);
    assert(seq![a].last() == a);
    assert(s1 == put_record(current, a, true));
    lemma_put_record_keeps_keys_unique(current, a, true);
    lemma_put_record_has_key(current, a);
    let s = put_records(s1, seq![b], true);
    assert(put_records(s1, seq![b].drop_last(), true) == s1);
    assert(seq![b].last() == b);
    assert(s == put_record(s1, b, true));
    lemma_put_record_keeps_keys_unique(s1, b, true);
    let c = choose|c: int| 0 <= c < uniques_of(s1).len() && uniques_of(s1)[c] == k;
    lemma_unique_key_index(s1, k, c);
    assert(s == s1.update(c, b));
    assert(uniques_of(s)[c] == k);
    assert forall|i: int| 0 <= i < s.len() && s[i].unique_spec() == k implies s[i] == b by {
        if i != c {
            assert(uniques_of(s)[i] != uniques_of(s)[c]);
        }
    }
}

/// After an upsert the partition holds a record with the upserted key.
proof fn lemma_put_record_has_key<T: DatabaseRecord>(s: Seq<T>, u: T)
    ensures
        has_key(put_record(s, u, true), u.unique_spec()),
{
    let k = u.unique_spec();
    let t = put_record(s, u, true);
    if has_key(s, k) {
        let i = choose|i: int| 0 <= i < uniques_of(s).len() && uniques_of(s)[i] == k;
        assert(is_first_with_key(s, k, i) || exists|c: int| is_first_with_key(s, k, c)) by {
            lemma_first_key_exists(s, k, i);
        }
        let c = first_with_key(s, k);
        assert(is_first_with_key(s, k, c));
        assert(uniques_of(t)[c] == k);
    } else {
        assert(uniques_of(t)[s.len() as int] == k);
    }
}

/// A sequence with a record of key `k` has a first such record.
proof fn lemma_first_key_exists<T: DatabaseRecord>(s: Seq<T>, k: u64, i: int)
    requires
        0 <= i < s.len(),
        s[i].unique_spec() == k,
    ensures
        exists|c: int| is_first_with_key(s, k, c),
    decreases i,
{
    if exists|j: int| 0 <= j < i && s[j].unique_spec() == k {
        let j = choose|j: int| 0 <= j < i && s[j].unique_spec() == k;
        lemma_first_key_exists(s, k, j);
    } else {
        assert(is_first_with_key(s, k, i));
    }
}

/// An empty replacement is accepted: the keys of no records are unique.
pub proof fn law_empty_replacement_is_accepted<T: DatabaseRecord>()
    ensures
        has_unique_keys(Seq::<T>::empty()),
{
    assert(uniques_of(Seq::<T>::empty()) =~= Seq::<u64>::empty());
}

/// A replacement in which two records share a key is refused.
pub proof fn law_replacement_with_shared_key_is_refused<T: DatabaseRecord>(s: Seq<T>, i: int, j: int)
    requires
        0 <= i < j < s.len(),
        s[i].unique_spec() == s[j].unique_spec(),
    ensures
        !has_unique_keys(s),
{
    assert(uniques_of(s)[i] == uniques_of(s)[j]);
}

/// Initializing a path twice: the second call never replaces what the first
/// stored, and when it succeeds it changes nothing at all.
pub proof fn law_initialize_twice(
    s0: Stored,
    s1: Stored,
    s2: Stored,
    path: Seq<char>,
    r1: Result<()>,
    r2: Result<()>,
)
    requires
        initialize_outcome(s0, s1, path, r1),
        r1 is Ok,
        initialize_outcome(s1, s2, path, r2),
    ensures
        s2.contains_key(path),
        s2[path] == s1[path],
        r2 is Ok ==> s2 == s1,
{
}

} // verus!
