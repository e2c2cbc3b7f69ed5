use vstd::prelude::*;
use itertools::Itertools;
use crate::record::{DatabaseRecord, uniques_of, has_key};

verus! {

/// `k` occurs at least twice in `s`.
pub open spec fn repeated_in(s: Seq<u64>, k: u64) -> bool {
    exists|i: int, j: int| 0 <= i < j < s.len() && s[i] == k && s[j] == k
}

/// Holds of the keys that no record of `s` has.
pub open spec fn absent_from<T: DatabaseRecord>(s: Seq<T>) -> spec_fn(u64) -> bool {
    |k: u64| !has_key(s, k)
}

/// The items of `s` that occur more than once, each taken at its second
/// occurrence, in order.
pub open spec fn second_occurrences(s: Seq<u64>) -> Seq<u64>
    decreases s.len(),
{
    if s.len() == 0 {
        Seq::empty()
    } else {
        let prev = s.drop_last();
        let x = s.last();
        if prev.filter(|y: u64| y == x).len() == 1 {
            second_occurrences(prev).push(x)
        } else {
            second_occurrences(prev)
        }
    }
}

/// Relies on `Itertools::duplicates`: it yields each item that occurs more
/// than once, exactly once, when it is met for the second time.
#[verifier::external_body]
fn duplicates_of(v: Vec<u64>) -> (r: Vec<u64>)
    ensures
        r@.no_duplicates(),
        forall|k: u64| r@.contains(k) <==> repeated_in(v@, k),
        r@ == second_occurrences(v@),
{
    v.into_iter().duplicates().collect()
}

/// Queries over a slice of records by their keys.
pub trait DatabaseRecordsUtils<T: DatabaseRecord> {
    spec fn records(&self) -> Seq<T>;

    /// The key of each record, in order.
    fn as_uniques(&self) -> (r: Vec<u64>)
        ensures
            r@ == uniques_of(self.records()),
    ;

    /// The keys that occur more than once in `self` followed by `other_records`,
    /// each listed once, in the order of their second occurrence.
    fn find_intersecting_uniques_from(&self, other_records: &[T]) -> (r: Vec<u64>)
        ensures
            r@.no_duplicates(),
            forall|k: u64|
                r@.contains(k) <==> repeated_in(
                    uniques_of(self.records()) + uniques_of(other_records@),
                    k,
                ),
            r@ == second_occurrences(uniques_of(self.records()) + uniques_of(other_records@)),
    ;

    /// The keys of `other_records` that no record of `self` has, in order.
    fn find_non_intersecting_uniques_from(&self, other_records: &[T]) -> (r: Vec<u64>)
        ensures
            r@ == uniques_of(other_records@).filter(absent_from(self.records())),
    ;

    /// The first record with key `unique`, if any.
    fn find_by_unique(&self, unique: u64) -> (r: Option<&T>)
        ensures
            r is None <==> !has_key(self.records(), unique),
            r matches Some(x) ==> exists|i: int|
                0 <= i < self.records().len() && self.records()[i] == *x
                    && x.unique_spec() == unique,
    ;

    /// The index of the first record with key `unique`, if any.
    fn position_by_unique(&self, unique: u64) -> (r: Option<usize>)
        ensures
            r is None <==> !has_key(self.records(), unique),
            r matches Some(i) ==> i < self.records().len()
                && self.records()[i as int].unique_spec() == unique
                && forall|j: int| 0 <= j < i ==> self.records()[j].unique_spec() != unique,
    ;
}

impl<T: DatabaseRecord> DatabaseRecordsUtils<T> for [T] {
    open spec fn records(&self) -> Seq<T> {
        self@
    }

    fn as_uniques(&self) -> (r: Vec<u64>) {
        let mut out: Vec<u64> = Vec::new();
        let mut i: usize = 0;
        while i < self.len()
            invariant
                i <= self@.len(),
                out@ == uniques_of(self@.take(i as int)),
            decreases self@.len() - i,
        {
            let k = self[i].unique_value();
            out.push(k);
            proof {
                assert(self@.take(i + 1) == self@.take(i as int).push(self@[i as int]));
                assert(uniques_of(self@.take(i + 1)) =~= uniques_of(self@.take(i as int)).push(k));
            }
            i += 1;
        }
        proof {
            assert(self@.take(self@.len() as int) == self@);
            assert(self.records() == self@);
        }
        out
    }

    fn find_intersecting_uniques_from(&self, other_records: &[T]) -> (r: Vec<u64>) {
        let mut all = self.as_uniques();
        let mut more = other_records.as_uniques();
        all.append(&mut more);
        assert(all@ == uniques_of(self.records()) + uniques_of(other_records@));
        duplicates_of(all)
    }

    fn find_non_intersecting_uniques_from(&self, other_records: &[T]) -> (r: Vec<u64>) {
        let ghost keep = absent_from(self@);
        let mut out: Vec<u64> = Vec::new();
        let mut i: usize = 0;
        while i < other_records.len()
            invariant
                i <= other_records@.len(),
                keep == absent_from(self@),
                out@ == uniques_of(other_records@.take(i as int)).filter(keep),
            decreases other_records@.len() - i,
        {
            let k = other_records[i].unique_value();
            let found = self.position_by_unique(k);
            proof {
                assert(other_records@.take(i + 1) == other_records@.take(i as int).push(
                    other_records@[i as int],
                ));
                assert(uniques_of(other_records@.take(i + 1)) == uniques_of(
                    other_records@.take(i as int),
                ).push(k));
                uniques_of(other_records@.take(i as int)).lemma_filter_push(k, keep);
            }
            if found.is_none() {
                assert(keep(k));
                out.push(k);
            } else {
                assert(!keep(k));
            }
            i += 1;
        }
        proof {
            assert(other_records@.take(other_records@.len() as int) == other_records@);
        }
        out
    }

    fn find_by_unique(&self, unique: u64) -> (r: Option<&T>) {
        match self.position_by_unique(unique) {
            Some(i) => Some(&self[i]),
            None => None,
        }
    }

    fn position_by_unique(&self, unique: u64) -> (r: Option<usize>) {
        let mut i: usize = 0;
        while i < self.len()
            invariant
                i <= self@.len(),
                forall|j: int| 0 <= j < i ==> self@[j].unique_spec() != unique,
            decreases self@.len() - i,
        {
            if self[i].unique_value() == unique {
                proof {
                    assert(uniques_of(self@)[i as int] == unique);
                }
                return Some(i);
            }
            i += 1;
        }
        proof {
            if uniques_of(self@).contains(unique) {
                let j = choose|j: int| 0 <= j < uniques_of(self@).len() && uniques_of(self@)[j] == unique;
                assert(self@[j].unique_spec() == unique);
            }
        }
        None
    }
}

} // verus!
