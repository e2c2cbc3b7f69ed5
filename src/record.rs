use vstd::prelude::*;

verus! {

/// A value that can be stored. Each record exposes a key; records of one kind
/// that share a partition must have pairwise distinct keys. Outside verified
/// code, `unique_spec` takes the same body as `unique_value`.
pub trait DatabaseRecord: Sized {
    /// The key of the record, as a mathematical value.
    spec fn unique_spec(&self) -> u64;

    /// Returns the key that identifies this record among records of its kind.
    fn unique_value(&self) -> (r: u64)
        ensures
            r == self.unique_spec(),
    ;
}

/// A record kind with a partition of its own.
pub trait DatabaseRecordPartitioned: DatabaseRecord {
    /// The name of the partition that holds records of this kind.
    const PARTITION: &'static str;
}

/// The keys of a sequence of records, in order.
pub open spec fn uniques_of<T: DatabaseRecord>(s: Seq<T>) -> Seq<u64> {
    s.map_values(|r: T| r.unique_spec())
}

/// No two records of `s` share a key.
pub open spec fn has_unique_keys<T: DatabaseRecord>(s: Seq<T>) -> bool {
    uniques_of(s).no_duplicates()
}

/// Some record of `s` has the key `k`.
pub open spec fn has_key<T: DatabaseRecord>(s: Seq<T>, k: u64) -> bool {
    uniques_of(s).contains(k)
}

} // verus!
