//! Composite operations: one call over an ordered group of record kinds,
//! carried out kind by kind and stopped at the first failure. Kinds already
//! written stay written when a later kind fails.
use vstd::prelude::*;
use crate::database::{
    Stored, StorageBackend, Database, DatabaseOps, partition_path, read_outcome, update_outcome,
    replace_outcome, initialize_outcome,
};
use crate::error::Result;
use crate::record::{DatabaseRecord, DatabaseRecordPartitioned};

verus! {

/// The effect and result of one step over one partition.
pub type Step = spec_fn(Stored, Stored, Result<()>) -> bool;

/// An insert or update of the records at `path`.
pub open spec fn update_step(path: Seq<char>) -> Step {
    |before: Stored, after: Stored, r: Result<()>| update_outcome(before, after, path, r)
}

/// An upsert of the records at `path`: an update that is never refused.
pub open spec fn upsert_step(path: Seq<char>) -> Step {
    |before: Stored, after: Stored, r: Result<()>| update_outcome(before, after, path, r) && !(
    r matches Err(e) && e is DBOperationFailure)
}

/// A replacement of the records at `path` with `records`.
pub open spec fn replace_step<T: DatabaseRecord>(path: Seq<char>, records: Seq<T>) -> Step {
    |before: Stored, after: Stored, r: Result<()>| replace_outcome(before, after, path, records, r)
}

/// An initialization of `path`.
pub open spec fn initialize_step(path: Seq<char>) -> Step {
    |before: Stored, after: Stored, r: Result<()>| initialize_outcome(before, after, path, r)
}

/// `first`, then `second` only if `first` succeeded; the result is the
/// failing step's, or the second's.
pub open spec fn in_order2(first: Step, second: Step, before: Stored, after: Stored, r: Result<()>) -> bool {
    exists|mid: Stored, r1: Result<()>|
        {
            &&& #[trigger] first(before, mid, r1)
            &&& r1 is Err ==> after == mid && r == r1
            &&& r1 is Ok ==> second(mid, after, r)
        }
}

/// Three steps in order, stopped at the first failure.
pub open spec fn in_order3(
    first: Step,
    second: Step,
    third: Step,
    before: Stored,
    after: Stored,
    r: Result<()>,
) -> bool {
    exists|mid: Stored, r1: Result<()>|
        {
            &&& #[trigger] first(before, mid, r1)
            &&& r1 is Err ==> after == mid && r == r1
            &&& r1 is Ok ==> in_order2(second, third, mid, after, r)
        }
}

/// Reads of the records at `p1` and then `p2`, stopped at the first failure;
/// on success the result holds what each read returned.
pub open spec fn read_in_order2<A, B>(
    p1: Seq<char>,
    p2: Seq<char>,
    before: Stored,
    after: Stored,
    r: Result<(Vec<A>, Vec<B>)>,
) -> bool {
    exists|mid: Stored, r1: Result<Vec<A>>|
        {
            &&& #[trigger] read_outcome(before, mid, p1, r1)
            &&& r1 is Err ==> after == mid && r is Err && r->Err_0 == r1->Err_0
            &&& r1 is Ok ==> exists|r2: Result<Vec<B>>|
                {
                    &&& #[trigger] read_outcome(mid, after, p2, r2)
                    &&& r2 is Err ==> r is Err && r->Err_0 == r2->Err_0
                    &&& r2 is Ok ==> r is Ok && r->Ok_0 == (r1->Ok_0, r2->Ok_0)
                }
        }
}

/// Reads of three partitions in order, stopped at the first failure.
pub open spec fn read_in_order3<A, B, C>(
    p1: Seq<char>,
    p2: Seq<char>,
    p3: Seq<char>,
    before: Stored,
    after: Stored,
    r: Result<(Vec<A>, Vec<B>, Vec<C>)>,
) -> bool {
    exists|mid: Stored, r1: Result<Vec<A>>|
        {
            &&& #[trigger] read_outcome(before, mid, p1, r1)
            &&& r1 is Err ==> after == mid && r is Err && r->Err_0 == r1->Err_0
            &&& r1 is Ok ==> exists|rest: Result<(Vec<B>, Vec<C>)>|
                {
                    &&& #[trigger] read_in_order2(p2, p3, mid, after, rest)
                    &&& rest is Err ==> r is Err && r->Err_0 == rest->Err_0
                    &&& rest is Ok ==> r is Ok && r->Ok_0 == (r1->Ok_0, rest->Ok_0.0, rest->Ok_0.1)
                }
        }
}

pub proof fn lemma_read_in_order2<A, B>(
    p1: Seq<char>,
    p2: Seq<char>,
    before: Stored,
    mid: Stored,
    after: Stored,
    r1: Result<Vec<A>>,
    r2: Result<Vec<B>>,
    r: Result<(Vec<A>, Vec<B>)>,
)
    requires
        read_outcome(before, mid, p1, r1),
        r1 is Err ==> after == mid && r is Err && r->Err_0 == r1->Err_0,
        r1 is Ok ==> read_outcome(mid, after, p2, r2),
        r1 is Ok && r2 is Err ==> r is Err && r->Err_0 == r2->Err_0,
        r1 is Ok && r2 is Ok ==> r is Ok && r->Ok_0 == (r1->Ok_0, r2->Ok_0),
    ensures
        read_in_order2(p1, p2, before, after, r),
{
}

pub proof fn lemma_read_in_order3<A, B, C>(
    p1: Seq<char>,
    p2: Seq<char>,
    p3: Seq<char>,
    before: Stored,
    mid: Stored,
    after: Stored,
    r1: Result<Vec<A>>,
    rest: Result<(Vec<B>, Vec<C>)>,
    r: Result<(Vec<A>, Vec<B>, Vec<C>)>,
)
    requires
        read_outcome(before, mid, p1, r1),
        r1 is Err ==> after == mid && r is Err && r->Err_0 == r1->Err_0,
        r1 is Ok ==> read_in_order2(p2, p3, mid, after, rest),
        r1 is Ok && rest is Err ==> r is Err && r->Err_0 == rest->Err_0,
        r1 is Ok && rest is Ok ==> r is Ok && r->Ok_0 == (r1->Ok_0, rest->Ok_0.0, rest->Ok_0.1),
    ensures
        read_in_order3(p1, p2, p3, before, after, r),
{
}

pub proof fn lemma_in_order2(first: Step, second: Step, before: Stored, mid: Stored, after: Stored, r1: Result<()>, r: Result<()>)
    requires
        first(before, mid, r1),
        r1 is Err ==> after == mid && r == r1,
        r1 is Ok ==> second(mid, after, r),
    ensures
        in_order2(first, second, before, after, r),
{
}

pub proof fn lemma_in_order3(
    first: Step,
    second: Step,
    third: Step,
    before: Stored,
    mid: Stored,
    after: Stored,
    r1: Result<()>,
    r: Result<()>,
)
    requires
        first(before, mid, r1),
        r1 is Err ==> after == mid && r == r1,
        r1 is Ok ==> in_order2(second, third, mid, after, r),
    ensures
        in_order3(first, second, third, before, after, r),
{
}

/// Composite operations over groups of two or three record kinds, each kind
/// in its own partition. The kinds are taken in order; the first failure ends
/// the call with that kind's error, and later kinds are left as they were.
/// Each kind's step has the contract of the single-kind operation.
pub trait DatabaseOpsOperatable: Database {
    /// The records of each kind, in order; stops at the first failure.
    fn get_all_with_operatable<R1: DatabaseRecordPartitioned + serde_core::Serialize + serde_core::de::DeserializeOwned, R2: DatabaseRecordPartitioned + serde_core::Serialize + serde_core::de::DeserializeOwned>(&mut self) -> (r: Result<(Vec<R1>, Vec<R2>)>)
        ensures
            final(self).dir_spec() == old(self).dir_spec(),
            old(self).keeps_setup(final(self)),
            r is Ok ==> final(self).stored() == old(self).stored(),
            read_in_order2(
                partition_path::<Self, R1>(old(self)),
                partition_path::<Self, R2>(old(self)),
                old(self).stored(),
                final(self).stored(),
                r,
            ),
    {
        let ghost d0 = *self;
        let r1 = self.get_all::<R1>();
        let ghost g1 = r1;
        let ghost d1 = *self;
        let a = match r1 {
            Ok(v) => v,
            Err(e) => {
                let r = Err(e);
                proof {
                    lemma_read_in_order2::<R1, R2>(
                        partition_path::<Self, R1>(&d0),
                        partition_path::<Self, R2>(&d0),
                        d0.stored(),
                        d1.stored(),
                        d1.stored(),
                        g1,
                        Err(g1->Err_0),
                        r,
                    );
                }
                return r;
            },
        };
        let r2 = self.get_all::<R2>();
        let ghost g2 = r2;
        let r = match r2 {
            Ok(b) => Ok((a, b)),
            Err(e) => Err(e),
        };
        proof {
            d0.lemma_keeps_setup_transitive(&d1, self);
            lemma_read_in_order2::<R1, R2>(
                partition_path::<Self, R1>(&d0),
                partition_path::<Self, R2>(&d0),
                d0.stored(),
                d1.stored(),
                self.stored(),
                g1,
                g2,
                r,
            );
        }
        r
    }

    /// The records of each of three kinds, in order; stops at the first failure.
    fn get_all_with_operatable3<R1: DatabaseRecordPartitioned + serde_core::Serialize + serde_core::de::DeserializeOwned, R2: DatabaseRecordPartitioned + serde_core::Serialize + serde_core::de::DeserializeOwned, R3: DatabaseRecordPartitioned + serde_core::Serialize + serde_core::de::DeserializeOwned>(&mut self) -> (r: Result<(Vec<R1>, Vec<R2>, Vec<R3>)>)
        ensures
            final(self).dir_spec() == old(self).dir_spec(),
            old(self).keeps_setup(final(self)),
            r is Ok ==> final(self).stored() == old(self).stored(),
            read_in_order3(
                partition_path::<Self, R1>(old(self)),
                partition_path::<Self, R2>(old(self)),
                partition_path::<Self, R3>(old(self)),
                old(self).stored(),
                final(self).stored(),
                r,
            ),
    {
        let ghost d0 = *self;
        let r1 = self.get_all::<R1>();
        let ghost g1 = r1;
        let ghost d1 = *self;
        let a = match r1 {
            Ok(v) => v,
            Err(e) => {
                let r = Err(e);
                proof {
                    lemma_read_in_order3::<R1, R2, R3>(
                        partition_path::<Self, R1>(&d0),
                        partition_path::<Self, R2>(&d0),
                        partition_path::<Self, R3>(&d0),
                        d0.stored(),
                        d1.stored(),
                        d1.stored(),
                        g1,
                        Err(g1->Err_0),
                        r,
                    );
                }
                return r;
            },
        };
        let rest = self.get_all_with_operatable::<R2, R3>();
        let ghost g2 = rest;
        let r = match rest {
            Ok((b, c)) => Ok((a, b, c)),
            Err(e) => Err(e),
        };
        proof {
            d0.lemma_keeps_setup_transitive(&d1, self);
            assert(partition_path::<Self, R2>(&d1) == partition_path::<Self, R2>(&d0));
            assert(partition_path::<Self, R3>(&d1) == partition_path::<Self, R3>(&d0));
            lemma_read_in_order3::<R1, R2, R3>(
                partition_path::<Self, R1>(&d0),
                partition_path::<Self, R2>(&d0),
                partition_path::<Self, R3>(&d0),
                d0.stored(),
                d1.stored(),
                self.stored(),
                g1,
                g2,
                r,
            );
        }
        r
    }

    /// Inserts one record of each kind, in order; stops at the first failure.
    fn insert_with_operatable<R1: DatabaseRecordPartitioned + serde_core::Serialize + serde_core::de::DeserializeOwned, R2: DatabaseRecordPartitioned + serde_core::Serialize + serde_core::de::DeserializeOwned>(&mut self, new_record: (R1, R2)) -> (r: Result<()>)
        ensures
            final(self).dir_spec() == old(self).dir_spec(),
            old(self).keeps_setup(final(self)),
            in_order2(
                update_step(partition_path::<Self, R1>(old(self))),
                update_step(partition_path::<Self, R2>(old(self))),
                old(self).stored(),
                final(self).stored(),
                r,
            ),
    {
        let ghost d0 = *self;
        let (first, second) = new_record;
        let r1 = self.insert::<R1>(first);
        let ghost g1 = r1;
        let ghost d1 = *self;
        if r1.is_err() {
            proof {
                lemma_in_order2(update_step(partition_path::<Self, R1>(&d0)), update_step(partition_path::<Self, R2>(&d0)), d0.stored(), d1.stored(), d1.stored(), g1, r1);
            }
            return r1;
        }
        let r = self.insert::<R2>(second);
        proof {
            d0.lemma_keeps_setup_transitive(&d1, self);
            lemma_in_order2(update_step(partition_path::<Self, R1>(&d0)), update_step(partition_path::<Self, R2>(&d0)), d0.stored(), d1.stored(), self.stored(), g1, r);
        }
        r
    }

    /// Inserts one record of each kind of three kinds, in order; stops at the first failure.
    fn insert_with_operatable3<R1: DatabaseRecordPartitioned + serde_core::Serialize + serde_core::de::DeserializeOwned, R2: DatabaseRecordPartitioned + serde_core::Serialize + serde_core::de::DeserializeOwned, R3: DatabaseRecordPartitioned + serde_core::Serialize + serde_core::de::DeserializeOwned>(
        &mut self,
        new_record: (R1, R2, R3),
    ) -> (r: Result<()>)
        ensures
            final(self).dir_spec() == old(self).dir_spec(),
            old(self).keeps_setup(final(self)),
            in_order3(
                update_step(partition_path::<Self, R1>(old(self))),
                update_step(partition_path::<Self, R2>(old(self))),
                update_step(partition_path::<Self, R3>(old(self))),
                old(self).stored(),
                final(self).stored(),
                r,
            ),
    {
        let ghost d0 = *self;
        let (first, second, third) = new_record;
        let r1 = self.insert::<R1>(first);
        let ghost g1 = r1;
        let ghost d1 = *self;
        if r1.is_err() {
            proof {
                lemma_in_order3(update_step(partition_path::<Self, R1>(&d0)), update_step(partition_path::<Self, R2>(&d0)), update_step(partition_path::<Self, R3>(&d0)), d0.stored(), d1.stored(), d1.stored(), g1, r1);
            }
            return r1;
        }
        let r = self.insert_with_operatable::<R2, R3>((second, third));
        proof {
            d0.lemma_keeps_setup_transitive(&d1, self);
            assert(partition_path::<Self, R2>(&d1) == partition_path::<Self, R2>(&d0));
            assert(partition_path::<Self, R3>(&d1) == partition_path::<Self, R3>(&d0));
            lemma_in_order3(update_step(partition_path::<Self, R1>(&d0)), update_step(partition_path::<Self, R2>(&d0)), update_step(partition_path::<Self, R3>(&d0)), d0.stored(), d1.stored(), self.stored(), g1, r);
        }
        r
    }

    /// Inserts the records of each kind, in order; stops at the first failure.
    fn insert_all_with_operatable<R1: DatabaseRecordPartitioned + serde_core::Serialize + serde_core::de::DeserializeOwned, R2: DatabaseRecordPartitioned + serde_core::Serialize + serde_core::de::DeserializeOwned>(&mut self, new_records: (Vec<R1>, Vec<R2>)) -> (r: Result<()>)
        ensures
            final(self).dir_spec() == old(self).dir_spec(),
            old(self).keeps_setup(final(self)),
            in_order2(
                update_step(partition_path::<Self, R1>(old(self))),
                update_step(partition_path::<Self, R2>(old(self))),
                old(self).stored(),
                final(self).stored(),
                r,
            ),
    {
        let ghost d0 = *self;
        let (first, second) = new_records;
        let r1 = self.insert_all::<R1>(first);
        let ghost g1 = r1;
        let ghost d1 = *self;
        if r1.is_err() {
            proof {
                lemma_in_order2(update_step(partition_path::<Self, R1>(&d0)), update_step(partition_path::<Self, R2>(&d0)), d0.stored(), d1.stored(), d1.stored(), g1, r1);
            }
            return r1;
        }
        let r = self.insert_all::<R2>(second);
        proof {
            d0.lemma_keeps_setup_transitive(&d1, self);
            lemma_in_order2(update_step(partition_path::<Self, R1>(&d0)), update_step(partition_path::<Self, R2>(&d0)), d0.stored(), d1.stored(), self.stored(), g1, r);
        }
        r
    }

    /// Inserts the records of each kind of three kinds, in order; stops at the first failure.
    fn insert_all_with_operatable3<R1: DatabaseRecordPartitioned + serde_core::Serialize + serde_core::de::DeserializeOwned, R2: DatabaseRecordPartitioned + serde_core::Serialize + serde_core::de::DeserializeOwned, R3: DatabaseRecordPartitioned + serde_core::Serialize + serde_core::de::DeserializeOwned>(
        &mut self,
        new_records: (Vec<R1>, Vec<R2>, Vec<R3>),
    ) -> (r: Result<()>)
        ensures
            final(self).dir_spec() == old(self).dir_spec(),
            old(self).keeps_setup(final(self)),
            in_order3(
                update_step(partition_path::<Self, R1>(old(self))),
                update_step(partition_path::<Self, R2>(old(self))),
                update_step(partition_path::<Self, R3>(old(self))),
                old(self).stored(),
                final(self).stored(),
                r,
            ),
    {
        let ghost d0 = *self;
        let (first, second, third) = new_records;
        let r1 = self.insert_all::<R1>(first);
        let ghost g1 = r1;
        let ghost d1 = *self;
        if r1.is_err() {
            proof {
                lemma_in_order3(update_step(partition_path::<Self, R1>(&d0)), update_step(partition_path::<Self, R2>(&d0)), update_step(partition_path::<Self, R3>(&d0)), d0.stored(), d1.stored(), d1.stored(), g1, r1);
            }
            return r1;
        }
        let r = self.insert_all_with_operatable::<R2, R3>((second, third));
        proof {
            d0.lemma_keeps_setup_transitive(&d1, self);
            assert(partition_path::<Self, R2>(&d1) == partition_path::<Self, R2>(&d0));
            assert(partition_path::<Self, R3>(&d1) == partition_path::<Self, R3>(&d0));
            lemma_in_order3(update_step(partition_path::<Self, R1>(&d0)), update_step(partition_path::<Self, R2>(&d0)), update_step(partition_path::<Self, R3>(&d0)), d0.stored(), d1.stored(), self.stored(), g1, r);
        }
        r
    }

    /// Updates one record of each kind, in order; stops at the first failure.
    fn update_with_operatable<R1: DatabaseRecordPartitioned + serde_core::Serialize + serde_core::de::DeserializeOwned, R2: DatabaseRecordPartitioned + serde_core::Serialize + serde_core::de::DeserializeOwned>(&mut self, updated_record: (R1, R2)) -> (r: Result<()>)
        ensures
            final(self).dir_spec() == old(self).dir_spec(),
            old(self).keeps_setup(final(self)),
            in_order2(
                update_step(partition_path::<Self, R1>(old(self))),
                update_step(partition_path::<Self, R2>(old(self))),
                old(self).stored(),
                final(self).stored(),
                r,
            ),
    {
        let ghost d0 = *self;
        let (first, second) = updated_record;
        let r1 = self.update::<R1>(first);
        let ghost g1 = r1;
        let ghost d1 = *self;
        if r1.is_err() {
            proof {
                lemma_in_order2(update_step(partition_path::<Self, R1>(&d0)), update_step(partition_path::<Self, R2>(&d0)), d0.stored(), d1.stored(), d1.stored(), g1, r1);
            }
            return r1;
        }
        let r = self.update::<R2>(second);
        proof {
            d0.lemma_keeps_setup_transitive(&d1, self);
            lemma_in_order2(update_step(partition_path::<Self, R1>(&d0)), update_step(partition_path::<Self, R2>(&d0)), d0.stored(), d1.stored(), self.stored(), g1, r);
        }
        r
    }

    /// Updates one record of each kind of three kinds, in order; stops at the first failure.
    fn update_with_operatable3<R1: DatabaseRecordPartitioned + serde_core::Serialize + serde_core::de::DeserializeOwned, R2: DatabaseRecordPartitioned + serde_core::Serialize + serde_core::de::DeserializeOwned, R3: DatabaseRecordPartitioned + serde_core::Serialize + serde_core::de::DeserializeOwned>(
        &mut self,
        updated_record: (R1, R2, R3),
    ) -> (r: Result<()>)
        ensures
            final(self).dir_spec() == old(self).dir_spec(),
            old(self).keeps_setup(final(self)),
            in_order3(
                update_step(partition_path::<Self, R1>(old(self))),
                update_step(partition_path::<Self, R2>(old(self))),
                update_step(partition_path::<Self, R3>(old(self))),
                old(self).stored(),
                final(self).stored(),
                r,
            ),
    {
        let ghost d0 = *self;
        let (first, second, third) = updated_record;
        let r1 = self.update::<R1>(first);
        let ghost g1 = r1;
        let ghost d1 = *self;
        if r1.is_err() {
            proof {
                lemma_in_order3(update_step(partition_path::<Self, R1>(&d0)), update_step(partition_path::<Self, R2>(&d0)), update_step(partition_path::<Self, R3>(&d0)), d0.stored(), d1.stored(), d1.stored(), g1, r1);
            }
            return r1;
        }
        let r = self.update_with_operatable::<R2, R3>((second, third));
        proof {
            d0.lemma_keeps_setup_transitive(&d1, self);
            assert(partition_path::<Self, R2>(&d1) == partition_path::<Self, R2>(&d0));
            assert(partition_path::<Self, R3>(&d1) == partition_path::<Self, R3>(&d0));
            lemma_in_order3(update_step(partition_path::<Self, R1>(&d0)), update_step(partition_path::<Self, R2>(&d0)), update_step(partition_path::<Self, R3>(&d0)), d0.stored(), d1.stored(), self.stored(), g1, r);
        }
        r
    }

    /// Updates the records of each kind, in order; stops at the first failure.
    fn update_all_with_operatable<R1: DatabaseRecordPartitioned + serde_core::Serialize + serde_core::de::DeserializeOwned, R2: DatabaseRecordPartitioned + serde_core::Serialize + serde_core::de::DeserializeOwned>(&mut self, updated_records: (Vec<R1>, Vec<R2>)) -> (r: Result<()>)
        ensures
            final(self).dir_spec() == old(self).dir_spec(),
            old(self).keeps_setup(final(self)),
            in_order2(
                update_step(partition_path::<Self, R1>(old(self))),
                update_step(partition_path::<Self, R2>(old(self))),
                old(self).stored(),
                final(self).stored(),
                r,
            ),
    {
        let ghost d0 = *self;
        let (first, second) = updated_records;
        let r1 = self.update_all::<R1>(first);
        let ghost g1 = r1;
        let ghost d1 = *self;
        if r1.is_err() {
            proof {
                lemma_in_order2(update_step(partition_path::<Self, R1>(&d0)), update_step(partition_path::<Self, R2>(&d0)), d0.stored(), d1.stored(), d1.stored(), g1, r1);
            }
            return r1;
        }
        let r = self.update_all::<R2>(second);
        proof {
            d0.lemma_keeps_setup_transitive(&d1, self);
            lemma_in_order2(update_step(partition_path::<Self, R1>(&d0)), update_step(partition_path::<Self, R2>(&d0)), d0.stored(), d1.stored(), self.stored(), g1, r);
        }
        r
    }

    /// Updates the records of each kind of three kinds, in order; stops at the first failure.
    fn update_all_with_operatable3<R1: DatabaseRecordPartitioned + serde_core::Serialize + serde_core::de::DeserializeOwned, R2: DatabaseRecordPartitioned + serde_core::Serialize + serde_core::de::DeserializeOwned, R3: DatabaseRecordPartitioned + serde_core::Serialize + serde_core::de::DeserializeOwned>(
        &mut self,
        updated_records: (Vec<R1>, Vec<R2>, Vec<R3>),
    ) -> (r: Result<()>)
        ensures
            final(self).dir_spec() == old(self).dir_spec(),
            old(self).keeps_setup(final(self)),
            in_order3(
                update_step(partition_path::<Self, R1>(old(self))),
                update_step(partition_path::<Self, R2>(old(self))),
                update_step(partition_path::<Self, R3>(old(self))),
                old(self).stored(),
                final(self).stored(),
                r,
            ),
    {
        let ghost d0 = *self;
        let (first, second, third) = updated_records;
        let r1 = self.update_all::<R1>(first);
        let ghost g1 = r1;
        let ghost d1 = *self;
        if r1.is_err() {
            proof {
                lemma_in_order3(update_step(partition_path::<Self, R1>(&d0)), update_step(partition_path::<Self, R2>(&d0)), update_step(partition_path::<Self, R3>(&d0)), d0.stored(), d1.stored(), d1.stored(), g1, r1);
            }
            return r1;
        }
        let r = self.update_all_with_operatable::<R2, R3>((second, third));
        proof {
            d0.lemma_keeps_setup_transitive(&d1, self);
            assert(partition_path::<Self, R2>(&d1) == partition_path::<Self, R2>(&d0));
            assert(partition_path::<Self, R3>(&d1) == partition_path::<Self, R3>(&d0));
            lemma_in_order3(update_step(partition_path::<Self, R1>(&d0)), update_step(partition_path::<Self, R2>(&d0)), update_step(partition_path::<Self, R3>(&d0)), d0.stored(), d1.stored(), self.stored(), g1, r);
        }
        r
    }

    /// Upserts one record of each kind, in order; stops at the first failure.
    fn upsert_with_operatable<R1: DatabaseRecordPartitioned + serde_core::Serialize + serde_core::de::DeserializeOwned, R2: DatabaseRecordPartitioned + serde_core::Serialize + serde_core::de::DeserializeOwned>(&mut self, upserted_record: (R1, R2)) -> (r: Result<()>)
        ensures
            final(self).dir_spec() == old(self).dir_spec(),
            old(self).keeps_setup(final(self)),
            in_order2(
                upsert_step(partition_path::<Self, R1>(old(self))),
                upsert_step(partition_path::<Self, R2>(old(self))),
                old(self).stored(),
                final(self).stored(),
                r,
            ),
    {
        let ghost d0 = *self;
        let (first, second) = upserted_record;
        let r1 = self.upsert::<R1>(first);
        let ghost g1 = r1;
        let ghost d1 = *self;
        if r1.is_err() {
            proof {
                lemma_in_order2(upsert_step(partition_path::<Self, R1>(&d0)), upsert_step(partition_path::<Self, R2>(&d0)), d0.stored(), d1.stored(), d1.stored(), g1, r1);
            }
            return r1;
        }
        let r = self.upsert::<R2>(second);
        proof {
            d0.lemma_keeps_setup_transitive(&d1, self);
            lemma_in_order2(upsert_step(partition_path::<Self, R1>(&d0)), upsert_step(partition_path::<Self, R2>(&d0)), d0.stored(), d1.stored(), self.stored(), g1, r);
        }
        r
    }

    /// Upserts one record of each kind of three kinds, in order; stops at the first failure.
    fn upsert_with_operatable3<R1: DatabaseRecordPartitioned + serde_core::Serialize + serde_core::de::DeserializeOwned, R2: DatabaseRecordPartitioned + serde_core::Serialize + serde_core::de::DeserializeOwned, R3: DatabaseRecordPartitioned + serde_core::Serialize + serde_core::de::DeserializeOwned>(
        &mut self,
        upserted_record: (R1, R2, R3),
    ) -> (r: Result<()>)
        ensures
            final(self).dir_spec() == old(self).dir_spec(),
            old(self).keeps_setup(final(self)),
            in_order3(
                upsert_step(partition_path::<Self, R1>(old(self))),
                upsert_step(partition_path::<Self, R2>(old(self))),
                upsert_step(partition_path::<Self, R3>(old(self))),
                old(self).stored(),
                final(self).stored(),
                r,
            ),
    {
        let ghost d0 = *self;
        let (first, second, third) = upserted_record;
        let r1 = self.upsert::<R1>(first);
        let ghost g1 = r1;
        let ghost d1 = *self;
        if r1.is_err() {
            proof {
                lemma_in_order3(upsert_step(partition_path::<Self, R1>(&d0)), upsert_step(partition_path::<Self, R2>(&d0)), upsert_step(partition_path::<Self, R3>(&d0)), d0.stored(), d1.stored(), d1.stored(), g1, r1);
            }
            return r1;
        }
        let r = self.upsert_with_operatable::<R2, R3>((second, third));
        proof {
            d0.lemma_keeps_setup_transitive(&d1, self);
            assert(partition_path::<Self, R2>(&d1) == partition_path::<Self, R2>(&d0));
            assert(partition_path::<Self, R3>(&d1) == partition_path::<Self, R3>(&d0));
            lemma_in_order3(upsert_step(partition_path::<Self, R1>(&d0)), upsert_step(partition_path::<Self, R2>(&d0)), upsert_step(partition_path::<Self, R3>(&d0)), d0.stored(), d1.stored(), self.stored(), g1, r);
        }
        r
    }

    /// Upserts the records of each kind, in order; stops at the first failure.
    fn upsert_all_with_operatable<R1: DatabaseRecordPartitioned + serde_core::Serialize + serde_core::de::DeserializeOwned, R2: DatabaseRecordPartitioned + serde_core::Serialize + serde_core::de::DeserializeOwned>(&mut self, upserted_records: (Vec<R1>, Vec<R2>)) -> (r: Result<()>)
        ensures
            final(self).dir_spec() == old(self).dir_spec(),
            old(self).keeps_setup(final(self)),
            in_order2(
                upsert_step(partition_path::<Self, R1>(old(self))),
                upsert_step(partition_path::<Self, R2>(old(self))),
                old(self).stored(),
                final(self).stored(),
                r,
            ),
    {
        let ghost d0 = *self;
        let (first, second) = upserted_records;
        let r1 = self.upsert_all::<R1>(first);
        let ghost g1 = r1;
        let ghost d1 = *self;
        if r1.is_err() {
            proof {
                lemma_in_order2(upsert_step(partition_path::<Self, R1>(&d0)), upsert_step(partition_path::<Self, R2>(&d0)), d0.stored(), d1.stored(), d1.stored(), g1, r1);
            }
            return r1;
        }
        let r = self.upsert_all::<R2>(second);
        proof {
            d0.lemma_keeps_setup_transitive(&d1, self);
            lemma_in_order2(upsert_step(partition_path::<Self, R1>(&d0)), upsert_step(partition_path::<Self, R2>(&d0)), d0.stored(), d1.stored(), self.stored(), g1, r);
        }
        r
    }

    /// Upserts the records of each kind of three kinds, in order; stops at the first failure.
    fn upsert_all_with_operatable3<R1: DatabaseRecordPartitioned + serde_core::Serialize + serde_core::de::DeserializeOwned, R2: DatabaseRecordPartitioned + serde_core::Serialize + serde_core::de::DeserializeOwned, R3: DatabaseRecordPartitioned + serde_core::Serialize + serde_core::de::DeserializeOwned>(
        &mut self,
        upserted_records: (Vec<R1>, Vec<R2>, Vec<R3>),
    ) -> (r: Result<()>)
        ensures
            final(self).dir_spec() == old(self).dir_spec(),
            old(self).keeps_setup(final(self)),
            in_order3(
                upsert_step(partition_path::<Self, R1>(old(self))),
                upsert_step(partition_path::<Self, R2>(old(self))),
                upsert_step(partition_path::<Self, R3>(old(self))),
                old(self).stored(),
                final(self).stored(),
                r,
            ),
    {
        let ghost d0 = *self;
        let (first, second, third) = upserted_records;
        let r1 = self.upsert_all::<R1>(first);
        let ghost g1 = r1;
        let ghost d1 = *self;
        if r1.is_err() {
            proof {
                lemma_in_order3(upsert_step(partition_path::<Self, R1>(&d0)), upsert_step(partition_path::<Self, R2>(&d0)), upsert_step(partition_path::<Self, R3>(&d0)), d0.stored(), d1.stored(), d1.stored(), g1, r1);
            }
            return r1;
        }
        let r = self.upsert_all_with_operatable::<R2, R3>((second, third));
        proof {
            d0.lemma_keeps_setup_transitive(&d1, self);
            assert(partition_path::<Self, R2>(&d1) == partition_path::<Self, R2>(&d0));
            assert(partition_path::<Self, R3>(&d1) == partition_path::<Self, R3>(&d0));
            lemma_in_order3(upsert_step(partition_path::<Self, R1>(&d0)), upsert_step(partition_path::<Self, R2>(&d0)), upsert_step(partition_path::<Self, R3>(&d0)), d0.stored(), d1.stored(), self.stored(), g1, r);
        }
        r
    }

    /// Replaces the records of each kind, in order; stops at the first failure.
    fn replace_all_with_operatable<R1: DatabaseRecordPartitioned + serde_core::Serialize + serde_core::de::DeserializeOwned, R2: DatabaseRecordPartitioned + serde_core::Serialize + serde_core::de::DeserializeOwned>(&mut self, replaced_records: (Vec<R1>, Vec<R2>)) -> (r: Result<()>)
        ensures
            final(self).dir_spec() == old(self).dir_spec(),
            old(self).keeps_setup(final(self)),
            in_order2(
                replace_step(partition_path::<Self, R1>(old(self)), replaced_records.0@),
                replace_step(partition_path::<Self, R2>(old(self)), replaced_records.1@),
                old(self).stored(),
                final(self).stored(),
                r,
            ),
    {
        let ghost d0 = *self;
        let (first, second) = replaced_records;
        let r1 = self.replace_all::<R1>(first);
        let ghost g1 = r1;
        let ghost d1 = *self;
        if r1.is_err() {
            proof {
                lemma_in_order2(replace_step(partition_path::<Self, R1>(&d0), replaced_records.0@), replace_step(partition_path::<Self, R2>(&d0), replaced_records.1@), d0.stored(), d1.stored(), d1.stored(), g1, r1);
            }
            return r1;
        }
        let r = self.replace_all::<R2>(second);
        proof {
            d0.lemma_keeps_setup_transitive(&d1, self);
            lemma_in_order2(replace_step(partition_path::<Self, R1>(&d0), replaced_records.0@), replace_step(partition_path::<Self, R2>(&d0), replaced_records.1@), d0.stored(), d1.stored(), self.stored(), g1, r);
        }
        r
    }

    /// Replaces the records of each kind of three kinds, in order; stops at the first failure.
    fn replace_all_with_operatable3<R1: DatabaseRecordPartitioned + serde_core::Serialize + serde_core::de::DeserializeOwned, R2: DatabaseRecordPartitioned + serde_core::Serialize + serde_core::de::DeserializeOwned, R3: DatabaseRecordPartitioned + serde_core::Serialize + serde_core::de::DeserializeOwned>(
        &mut self,
        replaced_records: (Vec<R1>, Vec<R2>, Vec<R3>),
    ) -> (r: Result<()>)
        ensures
            final(self).dir_spec() == old(self).dir_spec(),
            old(self).keeps_setup(final(self)),
            in_order3(
                replace_step(partition_path::<Self, R1>(old(self)), replaced_records.0@),
                replace_step(partition_path::<Self, R2>(old(self)), replaced_records.1@),
                replace_step(partition_path::<Self, R3>(old(self)), replaced_records.2@),
                old(self).stored(),
                final(self).stored(),
                r,
            ),
    {
        let ghost d0 = *self;
        let (first, second, third) = replaced_records;
        let r1 = self.replace_all::<R1>(first);
        let ghost g1 = r1;
        let ghost d1 = *self;
        if r1.is_err() {
            proof {
                lemma_in_order3(replace_step(partition_path::<Self, R1>(&d0), replaced_records.0@), replace_step(partition_path::<Self, R2>(&d0), replaced_records.1@), replace_step(partition_path::<Self, R3>(&d0), replaced_records.2@), d0.stored(), d1.stored(), d1.stored(), g1, r1);
            }
            return r1;
        }
        let r = self.replace_all_with_operatable::<R2, R3>((second, third));
        proof {
            d0.lemma_keeps_setup_transitive(&d1, self);
            assert(partition_path::<Self, R2>(&d1) == partition_path::<Self, R2>(&d0));
            assert(partition_path::<Self, R3>(&d1) == partition_path::<Self, R3>(&d0));
            lemma_in_order3(replace_step(partition_path::<Self, R1>(&d0), replaced_records.0@), replace_step(partition_path::<Self, R2>(&d0), replaced_records.1@), replace_step(partition_path::<Self, R3>(&d0), replaced_records.2@), d0.stored(), d1.stored(), self.stored(), g1, r);
        }
        r
    }

    /// Initializes the partition of each kind, in order; stops at the first failure.
    fn try_initialize_storage_with_operatable<R1: DatabaseRecordPartitioned + serde_core::Serialize + serde_core::de::DeserializeOwned, R2: DatabaseRecordPartitioned + serde_core::Serialize + serde_core::de::DeserializeOwned>(&mut self, default_data: (Vec<R1>, Vec<R2>)) -> (r: Result<()>)
        ensures
            final(self).dir_spec() == old(self).dir_spec(),
            in_order2(
                initialize_step(partition_path::<Self, R1>(old(self))),
                initialize_step(partition_path::<Self, R2>(old(self))),
                old(self).stored(),
                final(self).stored(),
                r,
            ),
    {
        let ghost d0 = *self;
        let (first, second) = default_data;
        let r1 = self.try_initialize_storage::<R1, Vec<R1>>(first);
        let ghost g1 = r1;
        let ghost d1 = *self;
        if r1.is_err() {
            proof {
                lemma_in_order2(initialize_step(partition_path::<Self, R1>(&d0)), initialize_step(partition_path::<Self, R2>(&d0)), d0.stored(), d1.stored(), d1.stored(), g1, r1);
            }
            return r1;
        }
        let r = self.try_initialize_storage::<R2, Vec<R2>>(second);
        proof {
            lemma_in_order2(initialize_step(partition_path::<Self, R1>(&d0)), initialize_step(partition_path::<Self, R2>(&d0)), d0.stored(), d1.stored(), self.stored(), g1, r);
        }
        r
    }

    /// Initializes the partition of each kind of three kinds, in order; stops at the first failure.
    fn try_initialize_storage_with_operatable3<R1: DatabaseRecordPartitioned + serde_core::Serialize + serde_core::de::DeserializeOwned, R2: DatabaseRecordPartitioned + serde_core::Serialize + serde_core::de::DeserializeOwned, R3: DatabaseRecordPartitioned + serde_core::Serialize + serde_core::de::DeserializeOwned>(
        &mut self,
        default_data: (Vec<R1>, Vec<R2>, Vec<R3>),
    ) -> (r: Result<()>)
        ensures
            final(self).dir_spec() == old(self).dir_spec(),
            in_order3(
                initialize_step(partition_path::<Self, R1>(old(self))),
                initialize_step(partition_path::<Self, R2>(old(self))),
                initialize_step(partition_path::<Self, R3>(old(self))),
                old(self).stored(),
                final(self).stored(),
                r,
            ),
    {
        let ghost d0 = *self;
        let (first, second, third) = default_data;
        let r1 = self.try_initialize_storage::<R1, Vec<R1>>(first);
        let ghost g1 = r1;
        let ghost d1 = *self;
        if r1.is_err() {
            proof {
                lemma_in_order3(initialize_step(partition_path::<Self, R1>(&d0)), initialize_step(partition_path::<Self, R2>(&d0)), initialize_step(partition_path::<Self, R3>(&d0)), d0.stored(), d1.stored(), d1.stored(), g1, r1);
            }
            return r1;
        }
        let r = self.try_initialize_storage_with_operatable::<R2, R3>((second, third));
        proof {
            assert(partition_path::<Self, R2>(&d1) == partition_path::<Self, R2>(&d0));
            assert(partition_path::<Self, R3>(&d1) == partition_path::<Self, R3>(&d0));
            lemma_in_order3(initialize_step(partition_path::<Self, R1>(&d0)), initialize_step(partition_path::<Self, R2>(&d0)), initialize_step(partition_path::<Self, R3>(&d0)), d0.stored(), d1.stored(), self.stored(), g1, r);
        }
        r
    }
}

impl DatabaseOpsOperatable for crate::memorydb::MemoryDB {
}

impl DatabaseOpsOperatable for crate::transaction::MemoryDBTransaction {
}

} // verus!
