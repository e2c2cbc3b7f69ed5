//! The new contents of a partition under each write operation, computed from
//! its current contents.
use vstd::prelude::*;
use vstd::string::StringExecFns;
use crate::error::{Error, Result, is_operation_failure_at};
use crate::record::{DatabaseRecord, uniques_of, has_unique_keys, has_key};
use crate::record_utils::DatabaseRecordsUtils;
use crate::utils::{check_is_all_new_records, check_is_all_existing_records, colliding_uniques};

verus! {

/// `i` is the index of the first record of `s` with key `k`.
pub open spec fn is_first_with_key<T: DatabaseRecord>(s: Seq<T>, k: u64, i: int) -> bool {
    &&& 0 <= i < s.len()
    &&& s[i].unique_spec() == k
    &&& forall|j: int| 0 <= j < i ==> s[j].unique_spec() != k
}

/// The index of the first record of `s` with key `k` (meaningful when there is one).
pub open spec fn first_with_key<T: DatabaseRecord>(s: Seq<T>, k: u64) -> int {
    choose|i: int| is_first_with_key(s, k, i)
}

/// `u` takes the place of the first record with its key; when there is none,
/// `u` is appended if `append` holds and dropped otherwise.
pub open spec fn put_record<T: DatabaseRecord>(s: Seq<T>, u: T, append: bool) -> Seq<T> {
    if has_key(s, u.unique_spec()) {
        s.update(first_with_key(s, u.unique_spec()), u)
    } else if append {
        s.push(u)
    } else {
        s
    }
}

/// `put_record` applied with each record of `ups`, in order.
pub open spec fn put_records<T: DatabaseRecord>(s: Seq<T>, ups: Seq<T>, append: bool) -> Seq<T>
    decreases ups.len(),
{
    if ups.len() == 0 {
        s
    } else {
        put_record(put_records(s, ups.drop_last(), append), ups.last(), append)
    }
}

/// The index of the first record of `s` that repeats the key of an earlier one.
pub open spec fn is_first_repeat<T: DatabaseRecord>(s: Seq<T>, j: int) -> bool {
    &&& 0 <= j < s.len()
    &&& has_key(s.take(j), s[j].unique_spec())
    &&& has_unique_keys(s.take(j))
}

pub proof fn lemma_first_with_key_is_unique<T: DatabaseRecord>(s: Seq<T>, k: u64, i: int)
    requires
        is_first_with_key(s, k, i),
    ensures
        first_with_key(s, k) == i,
{
    let c = first_with_key(s, k);
    assert(is_first_with_key(s, k, c));
    if c < i {
        assert(s[c].unique_spec() != k);
    } else if c > i {
        assert(s[i].unique_spec() != k);
    }
}

/// Puts one record into `records` as `put_record` describes.
fn put_one<T: DatabaseRecord>(records: &mut Vec<T>, u: T, append: bool)
    ensures
        final(records)@ == put_record(old(records)@, u, append),
{
    let k = u.unique_value();
    match records.as_slice().position_by_unique(k) {
        Some(i) => {
            proof {
                lemma_first_with_key_is_unique(records@, k, i as int);
            }
            records[i] = u;
        },
        None => {
            if append {
                records.push(u);
            }
        },
    }
}

/// Puts each record of `ups` into `records`, in order.
fn put_all<T: DatabaseRecord>(records: &mut Vec<T>, ups: Vec<T>, append: bool)
    ensures
        final(records)@ == put_records(old(records)@, ups@, append),
{
    let ghost start = records@;
    let ghost all = ups@;
    let mut rest = ups;
    let total: usize = rest.len();
    assert(all.len() == total);
    let mut done: usize = 0;
    while rest.len() > 0
        invariant
            done + rest@.len() == all.len(),
            all.len() <= usize::MAX,
            all == ups@,
            start == old(records)@,
            rest@ == all.skip(done as int),
            records@ == put_records(start, all.take(done as int), append),
        decreases rest@.len(),
    {
        let u = rest.remove(0);
        proof {
            assert(u == all[done as int]);
            assert(rest@ == all.skip(done + 1));
            assert(all.take(done + 1).drop_last() == all.take(done as int));
        }
        put_one(records, u, append);
        done += 1;
    }
    proof {
        assert(all.take(all.len() as int) == all);
    }
}

/// The stored records followed by the new ones, unless some key would then
/// occur twice.
pub fn insert_records<T: DatabaseRecord>(current: Vec<T>, new_records: Vec<T>, path: &str) -> (r: Result<Vec<T>>)
    ensures
        r is Ok <==> forall|k: u64| !colliding_uniques(current@, new_records@, k),
        r matches Ok(v) ==> v@ == current@ + new_records@,
        r matches Err(e) ==> e matches Error::DBOperationFailure { path: p, uniques, .. }
            && p@ == path@ && uniques@.len() > 0
            && forall|k: u64| uniques@.contains(k) <==> colliding_uniques(current@, new_records@, k),
{
    match check_is_all_new_records(current.as_slice(), new_records.as_slice(), path) {
        Err(e) => Err(e),
        Ok(()) => {
            let mut all = current;
            let mut more = new_records;
            all.append(&mut more);
            Ok(all)
        },
    }
}

/// Each update takes the place of the stored record with its key, unless some
/// update has a key that no stored record has.
pub fn update_records<T: DatabaseRecord>(current: Vec<T>, updates: Vec<T>, path: &str) -> (r: Result<Vec<T>>)
    ensures
        r is Ok <==> forall|k: u64| uniques_of(updates@).contains(k) ==> uniques_of(current@).contains(k),
        r matches Ok(v) ==> v@ == put_records(current@, updates@, false),
        r matches Err(e) ==> is_operation_failure_at(
            e,
            path@,
            uniques_of(updates@).filter(crate::record_utils::absent_from(current@)),
        ),
{
    match check_is_all_existing_records(current.as_slice(), updates.as_slice(), path) {
        Err(e) => Err(e),
        Ok(()) => {
            let mut records = current;
            put_all(&mut records, updates, false);
            Ok(records)
        },
    }
}

/// Each record takes the place of the stored record with its key, or is
/// appended when there is none.
pub fn upsert_records<T: DatabaseRecord>(current: Vec<T>, upserts: Vec<T>) -> (r: Vec<T>)
    ensures
        r@ == put_records(current@, upserts@, true),
{
    let mut records = current;
    put_all(&mut records, upserts, true);
    records
}

/// The given records as they are, unless two of them share a key: then the
/// error names the key of the first record that repeats an earlier key.
pub fn replace_records<T: DatabaseRecord>(replacements: Vec<T>, path: &str) -> (r: Result<Vec<T>>)
    ensures
        r is Ok <==> has_unique_keys(replacements@),
        r matches Ok(v) ==> v@ == replacements@,
        r matches Err(e) ==> exists|j: int| is_first_repeat(replacements@, j)
            && is_operation_failure_at(e, path@, seq![replacements@[j].unique_spec()]),
{
    let ghost all = replacements@;
    let mut rest = replacements;
    let mut records: Vec<T> = Vec::new();
    while rest.len() > 0
        invariant
            records@.len() + rest@.len() == all.len(),
            all == replacements@,
            rest@ == all.skip(records@.len() as int),
            records@ == all.take(records@.len() as int),
            has_unique_keys(records@),
        decreases rest@.len(),
    {
        let ghost n = records@.len() as int;
        let u = rest.remove(0);
        let k = u.unique_value();
        proof {
            assert(u == all[n]);
            assert(rest@ == all.skip(n + 1));
        }
        if records.as_slice().position_by_unique(k).is_some() {
            let mut uniques: Vec<u64> = Vec::new();
            uniques.push(k);
            proof {
                assert(is_first_repeat(all, n));
                assert(uniques@ == seq![all[n].unique_spec()]);
                lemma_repeat_breaks_uniqueness(all, n);
            }
            return Err(Error::DBOperationFailure {
                path: String::from_str(path),
                reason: String::from_str("duplicate unique value in replacement records"),
                uniques,
            });
        }
        proof {
            assert(all.take(n + 1) == all.take(n).push(u));
            assert(uniques_of(all.take(n + 1)) == uniques_of(all.take(n)).push(k));
        }
        records.push(u);
    }
    proof {
        assert(all.take(all.len() as int) == all);
    }
    Ok(records)
}

/// A record whose key occurs among the records before it makes the keys of
/// the whole sequence not unique.
proof fn lemma_repeat_breaks_uniqueness<T: DatabaseRecord>(s: Seq<T>, j: int)
    requires
        0 <= j < s.len(),
        has_key(s.take(j), s[j].unique_spec()),
    ensures
        !has_unique_keys(s),
{
    let i = choose|i: int| 0 <= i < uniques_of(s.take(j)).len()
        && uniques_of(s.take(j))[i] == s[j].unique_spec();
    assert(uniques_of(s)[i] == uniques_of(s)[j]);
}

} // verus!
