//! Snapshot transactions: a second database holding a "before" and an
//! "after" snapshot, and the commit and rollback that push one of them to the
//! primary database.
use vstd::prelude::*;
use vstd::string::StringExecFns;
use crate::database::{
    Stored, StorageBackend, DatabaseIO, DatabaseOpsCustom, DatabaseOps, Database, read_outcome,
    wrote_at, changed_at_most, initialize_outcome, partition_path,
};
use crate::error::{Error, Result, is_not_found_at};
use crate::memorydb::MemoryDB;
use crate::record::{DatabaseRecord, DatabaseRecordPartitioned};

verus! {

/// Reads from the "before" snapshot of a transaction.
pub trait DatabaseTransactionIO: Database {
    /// The bytes of the "before" snapshot, by path.
    spec fn stored_before(&self) -> Stored;

    /// Whatever keeps the setup keeps the "before" snapshot.
    proof fn lemma_keeps_setup_keeps_before(&self, later: &Self)
        requires
            self.keeps_setup(later),
        ensures
            self.stored_before() == later.stored_before(),
    ;

    /// A transaction database with both snapshots empty.
    fn with_empty_snapshots(dir: &str) -> (r: Self)
        ensures
            r.stored().dom().is_empty(),
            r.stored_before().dom().is_empty(),
            r.dir_spec() == dir@,
    ;

    /// Reads and decodes the value at `transaction_path` in the "before"
    /// snapshot. The "after" snapshot is not touched.
    fn try_read_storage_before<O: serde_core::de::DeserializeOwned>(
        &mut self,
        transaction_path: &str,
    ) -> (r: Result<O>)
        ensures
            final(self).stored() == old(self).stored(),
            final(self).dir_spec() == old(self).dir_spec(),
            read_outcome(old(self).stored_before(), final(self).stored_before(), transaction_path@, r),
    ;
}

/// Record reads from the "before" snapshot.
pub trait DatabaseTransactionOps: DatabaseTransactionIO {
    /// All records at `transaction_path` in the "before" snapshot.
    fn get_all_before_with_path<T: DatabaseRecord + serde_core::Serialize + serde_core::de::DeserializeOwned>(
        &mut self,
        transaction_path: &str,
    ) -> (r: Result<Vec<T>>)
        ensures
            final(self).stored() == old(self).stored(),
            final(self).dir_spec() == old(self).dir_spec(),
            read_outcome(old(self).stored_before(), final(self).stored_before(), transaction_path@, r),
    {
        self.try_read_storage_before::<Vec<T>>(transaction_path)
    }

    /// All records of kind `T` in the "before" snapshot.
    fn get_all_before<T: DatabaseRecordPartitioned + serde_core::Serialize + serde_core::de::DeserializeOwned>(
        &mut self,
    ) -> (r: Result<Vec<T>>)
        ensures
            final(self).stored() == old(self).stored(),
            final(self).dir_spec() == old(self).dir_spec(),
            read_outcome(
                old(self).stored_before(),
                final(self).stored_before(),
                partition_path::<Self, T>(old(self)),
                r,
            ),
    {
        let path = self.file_path(T::PARTITION);
        self.get_all_before_with_path::<T>(path.as_str())
    }
}

/// The error reported when writing a commit to `database_path` failed with
/// `cause`, given how the rollback that followed went: a commit failure when
/// the rollback succeeded, else a rollback failure that also carries `cause`.
pub fn commit_failure(database_path: &str, cause: Error, rollback: Result<()>) -> (r: Error)
    ensures
        rollback is Ok ==> (r matches Error::DBTransactionCommitFailure { file_path, cause: c }
            && file_path@ == database_path@ && *c == cause),
        rollback matches Err(re) ==> (r matches Error::DBTransactionRollbackFailure {
            file_path,
            cause: c,
            commit_cause: Some(cc),
        } && file_path@ == database_path@ && *c == re && *cc == cause),
{
    match rollback {
        Ok(()) => Error::DBTransactionCommitFailure {
            file_path: String::from_str(database_path),
            cause: Box::new(cause),
        },
        Err(re) => Error::DBTransactionRollbackFailure {
            file_path: String::from_str(database_path),
            cause: Box::new(re),
            commit_cause: Some(Box::new(cause)),
        },
    }
}

/// Transactions against a primary database.
pub trait DatabaseTransaction: Database {
    /// The database that holds a transaction's snapshots.
    type TransactionDB: DatabaseTransactionOps;

    /// Begins a transaction with both snapshots empty; nothing is copied
    /// from this database.
    fn transact(&self) -> (r: Result<Self::TransactionDB>)
        ensures
            r matches Ok(tx) ==> tx.stored().dom().is_empty() && tx.stored_before().dom().is_empty(),
            r is Ok,
    {
        Ok(Self::TransactionDB::with_empty_snapshots(""))
    }

    /// Writes the value at `transaction_path` in the "after" snapshot to
    /// `database_path`. When that write fails, rolls back, and reports the
    /// commit failure (or the rollback failure, carrying both causes).
    fn try_commit_with_path<O: serde_core::Serialize + serde_core::de::DeserializeOwned>(
        &mut self,
        transaction: &mut Self::TransactionDB,
        transaction_path: &str,
        database_path: &str,
    ) -> (r: Result<()>)
        ensures
            final(self).dir_spec() == old(self).dir_spec(),
            !old(transaction).stored().contains_key(transaction_path@) ==> final(self).stored() == old(
                self,
            ).stored() && (r matches Err(e) && is_not_found_at(e, transaction_path@)),
            r is Ok ==> old(transaction).stored().contains_key(transaction_path@) && wrote_at(
                old(self).stored(),
                final(self).stored(),
                database_path@,
            ),
            r is Err ==> changed_at_most(old(self).stored(), final(self).stored(), database_path@),
            r is Ok ==> final(transaction).stored() == old(transaction).stored()
                && final(transaction).stored_before() == old(transaction).stored_before(),
            (r matches Err(e) && !(e is DBTransactionCommitFailure || e is DBTransactionRollbackFailure))
                ==> final(self).stored() == old(self).stored(),
            (r matches Err(e) && (e is DBTransactionCommitFailure || e is DBTransactionRollbackFailure))
                ==> old(transaction).stored().contains_key(transaction_path@)
                && final(transaction).stored() == old(transaction).stored(),
    {
        let ghost tx0 = *transaction;
        let records = match transaction.try_read_storage::<O>(transaction_path) {
            Ok(v) => v,
            Err(e) => return Err(e),
        };
        let ghost mid = self.stored();
        match self.try_write_storage(&records, database_path) {
            Ok(()) => {
                proof {
                    tx0.lemma_keeps_setup_keeps_before(transaction);
                }
                Ok(())
            },
            Err(e) => {
                let ghost failed = self.stored();
                let rollback = self.try_rollback_with_path::<O>(transaction, transaction_path, database_path);
                proof {
                    if rollback is Ok {
                        let b = choose|b: Seq<u8>| self.stored() == failed.insert(database_path@, b);
                        assert(self.stored().remove(database_path@) =~= failed.remove(database_path@));
                    }
                }
                Err(commit_failure(database_path, e, rollback))
            },
        }
    }

    /// Commits the partition of kind `T`.
    fn try_commit<T: DatabaseRecordPartitioned + serde_core::Serialize + serde_core::de::DeserializeOwned>(
        &mut self,
        transaction: &mut Self::TransactionDB,
    ) -> (r: Result<()>)
        ensures
            final(self).dir_spec() == old(self).dir_spec(),
            r is Ok ==> wrote_at(old(self).stored(), final(self).stored(), partition_path::<Self, T>(old(self))),
            r is Err ==> changed_at_most(old(self).stored(), final(self).stored(), partition_path::<Self, T>(old(self))),
            r is Ok ==> final(transaction).stored() == old(transaction).stored()
                && final(transaction).stored_before() == old(transaction).stored_before(),
            (r matches Err(e) && !(e is DBTransactionCommitFailure || e is DBTransactionRollbackFailure))
                ==> final(self).stored() == old(self).stored(),
            (r matches Err(e) && (e is DBTransactionCommitFailure || e is DBTransactionRollbackFailure))
                ==> final(transaction).stored() == old(transaction).stored(),
    {
        let transaction_path = transaction.file_path(T::PARTITION);
        let database_path = self.file_path(T::PARTITION);
        self.try_commit_with_path::<Vec<T>>(transaction, transaction_path.as_str(), database_path.as_str())
    }

    /// Writes the value at `transaction_path` in the "before" snapshot to
    /// `database_path`, whatever the primary or the "after" snapshot hold.
    fn try_rollback_with_path<O: serde_core::Serialize + serde_core::de::DeserializeOwned>(
        &mut self,
        transaction: &mut Self::TransactionDB,
        transaction_path: &str,
        database_path: &str,
    ) -> (r: Result<()>)
        ensures
            final(self).dir_spec() == old(self).dir_spec(),
            final(transaction).stored() == old(transaction).stored(),
            r is Ok ==> final(transaction).stored_before() == old(transaction).stored_before(),
            !old(transaction).stored_before().contains_key(transaction_path@) ==> final(self).stored()
                == old(self).stored() && (r matches Err(e) && is_not_found_at(e, transaction_path@)),
            r is Ok ==> old(transaction).stored_before().contains_key(transaction_path@) && wrote_at(
                old(self).stored(),
                final(self).stored(),
                database_path@,
            ),
            r is Err ==> changed_at_most(old(self).stored(), final(self).stored(), database_path@),
    {
        let records_before = match transaction.try_read_storage_before::<O>(transaction_path) {
            Ok(v) => v,
            Err(e) => return Err(e),
        };
        self.try_write_storage(&records_before, database_path)
    }

    /// Rolls back the partition of kind `T`.
    fn try_rollback<T: DatabaseRecordPartitioned + serde_core::Serialize + serde_core::de::DeserializeOwned>(
        &mut self,
        transaction: &mut Self::TransactionDB,
    ) -> (r: Result<()>)
        ensures
            final(self).dir_spec() == old(self).dir_spec(),
            final(transaction).stored() == old(transaction).stored(),
            r is Ok ==> wrote_at(old(self).stored(), final(self).stored(), partition_path::<Self, T>(old(self))),
            r is Err ==> changed_at_most(old(self).stored(), final(self).stored(), partition_path::<Self, T>(old(self))),
    {
        let transaction_path = transaction.file_path(T::PARTITION);
        let database_path = self.file_path(T::PARTITION);
        self.try_rollback_with_path::<Vec<T>>(transaction, transaction_path.as_str(), database_path.as_str())
    }
}

/// A transaction database: two memory databases, "before" and "after".
/// Record operations on it read and write the "after" snapshot only.
pub struct MemoryDBTransaction {
    dir: String,
    records_before: MemoryDB,
    records_after: MemoryDB,
}

impl StorageBackend for MemoryDBTransaction {
    const EXTENSION: &'static str = "memorytransactdb";

    closed spec fn stored(&self) -> Stored {
        self.records_after.stored()
    }

    closed spec fn dir_spec(&self) -> Seq<char> {
        self.dir@
    }

    closed spec fn keeps_setup(&self, later: &Self) -> bool {
        &&& self.dir@ == later.dir@
        &&& self.records_before == later.records_before
        &&& self.records_after.keeps_setup(&later.records_after)
    }

    proof fn lemma_keeps_setup_reflexive(&self) {
        self.records_after.lemma_keeps_setup_reflexive();
    }

    proof fn lemma_keeps_setup_transitive(&self, b: &Self, c: &Self) {
        self.records_after.lemma_keeps_setup_transitive(&b.records_after, &c.records_after);
    }

    fn dir(&self) -> (r: String) {
        self.dir.clone()
    }

    fn try_read_bytes(&self, path: &str) -> (r: Result<Vec<u8>>)
        ensures
            r is Ok <==> self.stored().contains_key(path@),
    {
        self.records_after.try_read_bytes(path)
    }

    fn try_write_bytes(&mut self, bytes: Vec<u8>, path: &str) -> (r: Result<()>)
        ensures
            r is Ok,
    {
        self.records_after.try_write_bytes(bytes, path)
    }

    fn try_copy_storage(&mut self, source: &str, destination: &str) -> (r: Result<()>)
        ensures
            r is Ok <==> old(self).stored().contains_key(source@),
            !old(self).stored().contains_key(source@) ==> (r matches Err(e) && is_not_found_at(e, source@)
                && final(self).stored() == old(self).stored()),
    {
        self.records_after.try_copy_storage(source, destination)
    }

    fn encode<O: serde_core::Serialize>(&self, data: &O) -> (r: Result<Vec<u8>>) {
        self.records_after.encode(data)
    }

    fn decode<O: serde_core::de::DeserializeOwned>(&self, bytes: &[u8]) -> (r: Result<O>) {
        self.records_after.decode(bytes)
    }
}

impl DatabaseIO for MemoryDBTransaction {
}

impl DatabaseOpsCustom for MemoryDBTransaction {
    /// Initializes `path` in both snapshots alike.
    fn try_initialize_storage_with_path<O: serde_core::Serialize + serde_core::de::DeserializeOwned>(
        &mut self,
        default_data: O,
        path: &str,
    ) -> (r: Result<()>)
        ensures
            r is Ok ==> initialize_outcome(old(self).stored_before(), final(self).stored_before(), path@, r),
    {
        match crate::utils::try_populate_storage(&mut self.records_before, &default_data, path) {
            Ok(()) => {},
            Err(e) => {
                proof {
                    assert(changed_at_most(self.stored(), self.stored(), path@));
                }
                return Err(e);
            },
        }
        crate::utils::try_populate_storage(&mut self.records_after, &default_data, path)
    }
}

impl DatabaseOps for MemoryDBTransaction {
}

impl Database for MemoryDBTransaction {
    const NAME: &'static str = "MemoryDB-Transaction";

    fn new(dir: &str) -> (r: MemoryDBTransaction)
        ensures
            r.stored().dom().is_empty(),
            r.stored_before().dom().is_empty(),
    {
        MemoryDBTransaction::with_empty_snapshots(dir)
    }
}

impl DatabaseTransactionIO for MemoryDBTransaction {
    closed spec fn stored_before(&self) -> Stored {
        self.records_before.stored()
    }

    proof fn lemma_keeps_setup_keeps_before(&self, later: &Self) {
    }

    fn with_empty_snapshots(dir: &str) -> (r: MemoryDBTransaction) {
        MemoryDBTransaction {
            dir: String::from_str(dir),
            records_before: MemoryDB::with_dir(dir),
            records_after: MemoryDB::with_dir(dir),
        }
    }

    fn try_read_storage_before<O: serde_core::de::DeserializeOwned>(
        &mut self,
        transaction_path: &str,
    ) -> (r: Result<O>) {
        self.records_before.try_read_storage::<O>(transaction_path)
    }
}

impl DatabaseTransactionOps for MemoryDBTransaction {
}

/// Record operations and raw reads and writes on a transaction touch the
/// "after" snapshot only: wherever they keep the setup, the "before"
/// snapshot is as it was.
pub proof fn law_transaction_operations_keep_before(a: &MemoryDBTransaction, b: &MemoryDBTransaction)
    requires
        a.keeps_setup(b),
    ensures
        a.stored_before() == b.stored_before(),
{
}

impl DatabaseTransaction for MemoryDB {
    type TransactionDB = MemoryDBTransaction;
}

} // verus!
