//! Databases: byte storage by path, the typed reads and writes built on it,
//! and the record operations built on those.
use vstd::prelude::*;
use vstd::string::{StringExecFns, StrSliceExecFns};
use crate::backup::{backup_path, backup_path_of, lemma_backup_path_differs};
use crate::error::{Error, Result, is_not_found_at, is_operation_failure_at};
use crate::record::{DatabaseRecord, DatabaseRecordPartitioned, has_unique_keys};
use crate::partition::{insert_records, update_records, upsert_records, replace_records, is_first_repeat};

verus! {

/// What a database holds: bytes by path.
pub type Stored = Map<Seq<char>, Seq<u8>>;

/// The path of the file `name` with extension `ext` under the directory `dir`.
pub open spec fn storage_path(dir: Seq<char>, name: Seq<char>, ext: Seq<char>) -> Seq<char> {
    if dir.len() == 0 {
        name + seq!['.'] + ext
    } else {
        dir + seq!['/'] + name + seq!['.'] + ext
    }
}

/// The reason named in backups of unreadable partitions.
pub open spec fn parse_backup_reason() -> Seq<char> {
    seq!['F', 'A', 'I', 'L', 'E', 'D', '_', 'P', 'A', 'R', 'S', 'I', 'N', 'G']
}

/// Every path other than `path` keeps what it held.
pub open spec fn changed_at_most(before: Stored, after: Stored, path: Seq<char>) -> bool {
    after.remove(path) == before.remove(path)
}

/// `path` now holds some bytes; every other path keeps what it held.
pub open spec fn wrote_at(before: Stored, after: Stored, path: Seq<char>) -> bool {
    exists|b: Seq<u8>| after == before.insert(path, b)
}

/// At most a backup of `path`, taken because it could not be decoded, changed.
pub open spec fn backup_touched(before: Stored, after: Stored, path: Seq<char>) -> bool {
    exists|t: u64| changed_at_most(before, after, backup_path_of(path, t, parse_backup_reason()))
}

/// A copy of the bytes at `path` now stands at a backup path of `path`, and
/// nothing else changed.
pub open spec fn backed_up(before: Stored, after: Stored, path: Seq<char>) -> bool {
    &&& before.contains_key(path)
    &&& exists|t: u64| after == before.insert(backup_path_of(path, t, parse_backup_reason()), before[path])
}

/// A backup of `path` leaves what is stored at `path` as it was.
pub proof fn lemma_backup_keeps_path(before: Stored, after: Stored, path: Seq<char>)
    requires
        backup_touched(before, after, path),
    ensures
        before.contains_key(path) ==> after.contains_key(path) && after[path] == before[path],
{
    let t = choose|t: u64| changed_at_most(before, after, backup_path_of(path, t, parse_backup_reason()));
    let b = backup_path_of(path, t, parse_backup_reason());
    lemma_backup_path_differs(path, t, parse_backup_reason());
    if before.contains_key(path) {
        assert(before.remove(b).contains_key(path));
        assert(after.remove(b).contains_key(path));
        assert(after.remove(b)[path] == after[path]);
    }
}

/// What a typed read of `path` may do: fail with "not found" exactly where
/// nothing is stored, change nothing when it succeeds, and at worst write a
/// backup of `path` when it fails.
pub open spec fn read_outcome<O>(before: Stored, after: Stored, path: Seq<char>, r: Result<O>) -> bool {
    &&& !before.contains_key(path) ==> after == before && (r matches Err(e) && is_not_found_at(e, path))
    &&& r is Ok ==> before.contains_key(path) && after == before
    &&& backup_touched(before, after, path)
    &&& before.contains_key(path) ==> after.contains_key(path) && after[path] == before[path]
    &&& r matches Err(e) ==> !(e is DBOperationFailure)
    &&& (r matches Err(e) && e is DBNotFound) ==> !before.contains_key(path)
    &&& (r matches Err(e) && e is DBCorrupt) ==> after == before || backed_up(before, after, path)
    &&& r matches Err(e) ==> !(e is DBTransactionCommitFailure || e is DBTransactionRollbackFailure)
}

/// What a read, check and write of the records at `path` may do: the read's
/// outcomes; a refused operation changes nothing; success writes `path` only.
pub open spec fn update_outcome(before: Stored, after: Stored, path: Seq<char>, r: Result<()>) -> bool {
    &&& !before.contains_key(path) ==> after == before && (r matches Err(e) && is_not_found_at(e, path))
    &&& (r matches Err(e) && e is DBOperationFailure) ==> after == before
    &&& r is Ok ==> wrote_at(before, after, path)
    &&& r is Err ==> backup_touched(before, after, path) || changed_at_most(before, after, path)
}

/// What a write of a whole value at `path` may do.
pub open spec fn write_outcome(before: Stored, after: Stored, path: Seq<char>, r: Result<()>) -> bool {
    &&& r is Ok ==> wrote_at(before, after, path)
    &&& r is Err ==> changed_at_most(before, after, path)
    &&& r matches Err(e) ==> !(e is DBOperationFailure)
}

/// What initializing `path` may do: what is stored there is never replaced,
/// and on success something is stored there.
pub open spec fn initialize_outcome(before: Stored, after: Stored, path: Seq<char>, r: Result<()>) -> bool {
    &&& before.contains_key(path) ==> after.contains_key(path) && after[path] == before[path]
    &&& before.contains_key(path) && r is Ok ==> after == before
    &&& !before.contains_key(path) && r is Ok ==> wrote_at(before, after, path)
    &&& r is Ok ==> after.contains_key(path)
    &&& r is Err ==> backup_touched(before, after, path) || changed_at_most(before, after, path)
}

/// `a` and `b` agree on everything but their stored bytes.
pub open spec fn same_setup<D: StorageBackend>(a: &D, b: &D) -> bool {
    &&& a.keeps_setup(b)
    &&& a.dir_spec() == b.dir_spec()
}

/// Storage by path for one backend: bytes, their encoding, and copies.
pub trait StorageBackend: Sized {
    /// The extension of the backend's storage paths.
    const EXTENSION: &'static str;

    /// The bytes stored under each path.
    spec fn stored(&self) -> Stored;

    /// The base directory of every storage path.
    spec fn dir_spec(&self) -> Seq<char>;

    /// Whatever the database holds besides its stored bytes is the same in
    /// `later` as in `self`.
    spec fn keeps_setup(&self, later: &Self) -> bool;

    proof fn lemma_keeps_setup_reflexive(&self)
        ensures
            self.keeps_setup(self),
    ;

    proof fn lemma_keeps_setup_transitive(&self, b: &Self, c: &Self)
        requires
            self.keeps_setup(b),
            b.keeps_setup(c),
        ensures
            self.keeps_setup(c),
    ;

    /// Returns the base directory.
    fn dir(&self) -> (r: String)
        ensures
            r@ == self.dir_spec(),
    ;

    /// The bytes stored at `path`.
    fn try_read_bytes(&self, path: &str) -> (r: Result<Vec<u8>>)
        ensures
            r matches Ok(b) ==> self.stored().contains_key(path@) && b@ == self.stored()[path@],
            !self.stored().contains_key(path@) ==> (r matches Err(e) && is_not_found_at(e, path@)),
            r matches Err(e) ==> !(e is DBOperationFailure),
            (r matches Err(e) && e is DBNotFound) ==> !self.stored().contains_key(path@),
            r matches Err(e) ==> (e is DBNotFound || e is DBCorrupt || e is DBInaccessible),
    ;

    /// Stores `bytes` at `path`.
    fn try_write_bytes(&mut self, bytes: Vec<u8>, path: &str) -> (r: Result<()>)
        ensures
            old(self).keeps_setup(final(self)),
            final(self).dir_spec() == old(self).dir_spec(),
            r is Ok ==> final(self).stored() == old(self).stored().insert(path@, bytes@),
            r is Err ==> changed_at_most(old(self).stored(), final(self).stored(), path@),
            r matches Err(e) ==> !(e is DBOperationFailure),
    ;

    /// Copies the bytes at `source` to `destination`.
    fn try_copy_storage(&mut self, source: &str, destination: &str) -> (r: Result<()>)
        ensures
            old(self).keeps_setup(final(self)),
            final(self).dir_spec() == old(self).dir_spec(),
            r is Ok ==> old(self).stored().contains_key(source@) && final(self).stored()
                == old(self).stored().insert(destination@, old(self).stored()[source@]),
            r is Err ==> changed_at_most(old(self).stored(), final(self).stored(), destination@),
            r matches Err(e) ==> !(e is DBOperationFailure),
            (r matches Err(e) && e is DBNotFound) ==> !old(self).stored().contains_key(source@),
            r matches Err(e) ==> (e is IOCopyFailure || e is DBNotFound),
    ;

    /// Encodes `data` in the backend's format.
    fn encode<O: serde_core::Serialize>(&self, data: &O) -> (r: Result<Vec<u8>>)
        ensures
            r matches Err(e) ==> e is SerializationFailure,
    ;

    /// Decodes a value from the backend's format.
    fn decode<O: serde_core::de::DeserializeOwned>(&self, bytes: &[u8]) -> (r: Result<O>)
        ensures
            r matches Err(e) ==> e is DeserializationFailure,
    ;

    /// The storage path of `file_name`: under the base directory, with the
    /// backend's extension.
    fn file_path(&self, file_name: &str) -> (r: String)
        ensures
            r@ == storage_path(self.dir_spec(), file_name@, Self::EXTENSION@),
    {
        let mut p = self.dir();
        if p.as_str().unicode_len() > 0 {
            p.append("/");
        }
        p.append(file_name);
        p.append(".");
        p.append(Self::EXTENSION);
        proof {
            reveal_strlit("/");
            reveal_strlit(".");
        }
        p
    }

    /// Copies the bytes at `path` to a new path named after the time and
    /// `reason`, and returns that path.
    fn try_backup_storage(&mut self, path: &str, reason: &str) -> (r: Result<String>)
        ensures
            old(self).keeps_setup(final(self)),
            final(self).dir_spec() == old(self).dir_spec(),
            r matches Ok(b) ==> (exists|t: u64| b@ == backup_path_of(path@, t, reason@))
                && old(self).stored().contains_key(path@)
                && final(self).stored() == old(self).stored().insert(b@, old(self).stored()[path@]),
            r is Err ==> exists|t: u64| changed_at_most(
                old(self).stored(),
                final(self).stored(),
                backup_path_of(path@, t, reason@),
            ),
            r matches Err(e) ==> !(e is DBOperationFailure),
            (r matches Err(e) && e is DBNotFound) ==> !old(self).stored().contains_key(path@),
            r matches Err(e) ==> (e is IOCopyFailure || e is DBNotFound),
    {
        let destination = match backup_path(path, reason) {
            Some(d) => d,
            None => {
                proof {
                    self.lemma_keeps_setup_reflexive();
                    assert(changed_at_most(self.stored(), self.stored(), backup_path_of(path@, 0, reason@)));
                }
                return Err(Error::IOCopyFailure {
                path_from: String::from_str(path),
                path_destination: String::new(),
                reason: String::from_str("the system clock reads earlier than the Unix epoch"),
            });
            },
        };
        match self.try_copy_storage(path, destination.as_str()) {
            Ok(()) => Ok(destination),
            Err(e) => Err(e),
        }
    }
}

/// Typed reads and writes of whole values by path.
pub trait DatabaseIO: StorageBackend {
    /// Encodes `data` and stores it at `path`.
    fn try_write_storage<O: serde_core::Serialize>(&mut self, data: &O, path: &str) -> (r: Result<()>)
        ensures
            old(self).keeps_setup(final(self)),
            final(self).dir_spec() == old(self).dir_spec(),
            write_outcome(old(self).stored(), final(self).stored(), path@, r),
    {
        match self.encode(data) {
            Ok(bytes) => self.try_write_bytes(bytes, path),
            Err(e) => {
                proof {
                    self.lemma_keeps_setup_reflexive();
                }
                Err(e)
            },
        }
    }

    /// Reads and decodes the value at `path`. Bytes that do not decode are
    /// first copied to a backup path, and the read fails as corrupt.
    fn try_read_storage<O: serde_core::de::DeserializeOwned>(&mut self, path: &str) -> (r: Result<O>)
        ensures
            old(self).keeps_setup(final(self)),
            final(self).dir_spec() == old(self).dir_spec(),
            read_outcome(old(self).stored(), final(self).stored(), path@, r),
    {
        proof {
            self.lemma_keeps_setup_reflexive();
            assert(changed_at_most(self.stored(), self.stored(), backup_path_of(path@, 0, parse_backup_reason())));
        }
        let bytes = match self.try_read_bytes(path) {
            Ok(b) => b,
            Err(e) => {
                return Err(e);
            },
        };
        let ghost before = self.stored();
        match self.decode(bytes.as_slice()) {
            Ok(v) => Ok(v),
            Err(e) => {
                let failure = crate::utils::backup_failed_parse(self, path, e);
                proof {
                    lemma_backup_keeps_path(before, self.stored(), path@);
                }
                Err(failure)
            },
        }
    }
}

/// The storage path of the partition of record kind `T` in `d`.
pub open spec fn partition_path<D: StorageBackend, T: DatabaseRecordPartitioned>(d: &D) -> Seq<char> {
    storage_path(d.dir_spec(), T::PARTITION@, D::EXTENSION@)
}

/// What replacing the records at `path` with `records` does: it is refused,
/// changing nothing, exactly when two of them share a key, naming the path and
/// the key of the first record that repeats an earlier one; otherwise it is a
/// write.
pub open spec fn replace_outcome<T: DatabaseRecord>(
    before: Stored,
    after: Stored,
    path: Seq<char>,
    records: Seq<T>,
    r: Result<()>,
) -> bool {
    &&& (r matches Err(e) && e is DBOperationFailure) <==> !has_unique_keys(records)
    &&& (r matches Err(e) && e is DBOperationFailure) ==> exists|j: int| is_first_repeat(records, j)
        && is_operation_failure_at(r->Err_0, path, seq![records[j].unique_spec()])
    &&& !has_unique_keys(records) ==> after == before
    &&& has_unique_keys(records) ==> write_outcome(before, after, path, r)
}

/// Record operations on the partition at any path. Each reads the whole
/// partition, checks the keys, and writes the whole partition back.
pub trait DatabaseOpsCustom: DatabaseIO {
    /// All records stored at `path`.
    fn get_all_with_path<T: DatabaseRecord + serde_core::Serialize + serde_core::de::DeserializeOwned>(
        &mut self,
        path: &str,
    ) -> (r: Result<Vec<T>>)
        ensures
            old(self).keeps_setup(final(self)),
            final(self).dir_spec() == old(self).dir_spec(),
            read_outcome(old(self).stored(), final(self).stored(), path@, r),
    {
        self.try_read_storage::<Vec<T>>(path)
    }

    /// Adds one record at `path`; see `insert_all_with_path`.
    fn insert_with_path<T: DatabaseRecord + serde_core::Serialize + serde_core::de::DeserializeOwned>(
        &mut self,
        new_record: T,
        path: &str,
    ) -> (r: Result<()>)
        ensures
            old(self).keeps_setup(final(self)),
            final(self).dir_spec() == old(self).dir_spec(),
            update_outcome(old(self).stored(), final(self).stored(), path@, r),
    {
        self.insert_all_with_path(vec![new_record], path)
    }

    /// Appends `new_records` to the records at `path`; refused when a key
    /// would then occur twice.
    fn insert_all_with_path<T: DatabaseRecord + serde_core::Serialize + serde_core::de::DeserializeOwned>(
        &mut self,
        new_records: Vec<T>,
        path: &str,
    ) -> (r: Result<()>)
        ensures
            old(self).keeps_setup(final(self)),
            final(self).dir_spec() == old(self).dir_spec(),
            update_outcome(old(self).stored(), final(self).stored(), path@, r),
    {
        let ghost d0 = *self;
        let records = match self.get_all_with_path::<T>(path) {
            Ok(v) => v,
            Err(e) => return Err(e),
        };
        let ghost d1 = *self;
        match insert_records(records, new_records, path) {
            Err(e) => Err(e),
            Ok(all) => {
                let w = self.try_write_storage(&all, path);
                proof {
                    d0.lemma_keeps_setup_transitive(&d1, self);
                }
                w
            },
        }
    }

    /// Replaces the record with the same key at `path`; see `update_all_with_path`.
    fn update_with_path<T: DatabaseRecord + serde_core::Serialize + serde_core::de::DeserializeOwned>(
        &mut self,
        updated_record: T,
        path: &str,
    ) -> (r: Result<()>)
        ensures
            old(self).keeps_setup(final(self)),
            final(self).dir_spec() == old(self).dir_spec(),
            update_outcome(old(self).stored(), final(self).stored(), path@, r),
    {
        self.update_all_with_path(vec![updated_record], path)
    }

    /// Each updated record takes the place of the stored record with its key;
    /// refused when some key is not stored.
    fn update_all_with_path<T: DatabaseRecord + serde_core::Serialize + serde_core::de::DeserializeOwned>(
        &mut self,
        updated_records: Vec<T>,
        path: &str,
    ) -> (r: Result<()>)
        ensures
            old(self).keeps_setup(final(self)),
            final(self).dir_spec() == old(self).dir_spec(),
            update_outcome(old(self).stored(), final(self).stored(), path@, r),
    {
        let ghost d0 = *self;
        let records = match self.get_all_with_path::<T>(path) {
            Ok(v) => v,
            Err(e) => return Err(e),
        };
        let ghost d1 = *self;
        match update_records(records, updated_records, path) {
            Err(e) => Err(e),
            Ok(all) => {
                let w = self.try_write_storage(&all, path);
                proof {
                    d0.lemma_keeps_setup_transitive(&d1, self);
                }
                w
            },
        }
    }

    /// Updates or inserts one record at `path`; see `upsert_all_with_path`.
    fn upsert_with_path<T: DatabaseRecord + serde_core::Serialize + serde_core::de::DeserializeOwned>(
        &mut self,
        upserted_record: T,
        path: &str,
    ) -> (r: Result<()>)
        ensures
            old(self).keeps_setup(final(self)),
            final(self).dir_spec() == old(self).dir_spec(),
            update_outcome(old(self).stored(), final(self).stored(), path@, r),
            !(r matches Err(e) && e is DBOperationFailure),
    {
        self.upsert_all_with_path(vec![upserted_record], path)
    }

    /// Each record takes the place of the stored record with its key, or is
    /// appended when there is none. Never refused.
    fn upsert_all_with_path<T: DatabaseRecord + serde_core::Serialize + serde_core::de::DeserializeOwned>(
        &mut self,
        upserted_records: Vec<T>,
        path: &str,
    ) -> (r: Result<()>)
        ensures
            old(self).keeps_setup(final(self)),
            final(self).dir_spec() == old(self).dir_spec(),
            update_outcome(old(self).stored(), final(self).stored(), path@, r),
            !(r matches Err(e) && e is DBOperationFailure),
    {
        let ghost d0 = *self;
        let records = match self.get_all_with_path::<T>(path) {
            Ok(v) => v,
            Err(e) => return Err(e),
        };
        let ghost d1 = *self;
        let all = upsert_records(records, upserted_records);
        let w = self.try_write_storage(&all, path);
        proof {
            d0.lemma_keeps_setup_transitive(&d1, self);
        }
        w
    }

    /// Stores exactly `replaced_records` at `path`, whatever was there;
    /// refused, without writing, when two of them share a key.
    fn replace_all_with_path<T: DatabaseRecord + serde_core::Serialize + serde_core::de::DeserializeOwned>(
        &mut self,
        replaced_records: Vec<T>,
        path: &str,
    ) -> (r: Result<()>)
        ensures
            old(self).keeps_setup(final(self)),
            final(self).dir_spec() == old(self).dir_spec(),
            replace_outcome(old(self).stored(), final(self).stored(), path@, replaced_records@, r),
    {
        proof {
            self.lemma_keeps_setup_reflexive();
        }
        match replace_records(replaced_records, path) {
            Err(e) => Err(e),
            Ok(all) => self.try_write_storage(&all, path),
        }
    }

    /// Stores `default_data` at `path` unless something is stored there.
    fn try_initialize_storage_with_path<O: serde_core::Serialize + serde_core::de::DeserializeOwned>(
        &mut self,
        default_data: O,
        path: &str,
    ) -> (r: Result<()>)
        ensures
            final(self).dir_spec() == old(self).dir_spec(),
            initialize_outcome(old(self).stored(), final(self).stored(), path@, r),
    ;
}

/// Record operations on the partition of each record kind.
pub trait DatabaseOps: DatabaseOpsCustom {
    /// All records of kind `T`.
    fn get_all<T: DatabaseRecordPartitioned + serde_core::Serialize + serde_core::de::DeserializeOwned>(
        &mut self,
    ) -> (r: Result<Vec<T>>)
        ensures
            old(self).keeps_setup(final(self)),
            final(self).dir_spec() == old(self).dir_spec(),
            read_outcome(old(self).stored(), final(self).stored(), partition_path::<Self, T>(old(self)), r),
    {
        let path = self.file_path(T::PARTITION);
        self.get_all_with_path(path.as_str())
    }

    /// Adds one record to the partition of its kind.
    fn insert<T: DatabaseRecordPartitioned + serde_core::Serialize + serde_core::de::DeserializeOwned>(
        &mut self,
        new_record: T,
    ) -> (r: Result<()>)
        ensures
            old(self).keeps_setup(final(self)),
            final(self).dir_spec() == old(self).dir_spec(),
            update_outcome(old(self).stored(), final(self).stored(), partition_path::<Self, T>(old(self)), r),
    {
        let path = self.file_path(T::PARTITION);
        self.insert_with_path(new_record, path.as_str())
    }

    /// Adds records to the partition of their kind; refused when a key would occur twice.
    fn insert_all<T: DatabaseRecordPartitioned + serde_core::Serialize + serde_core::de::DeserializeOwned>(
        &mut self,
        new_records: Vec<T>,
    ) -> (r: Result<()>)
        ensures
            old(self).keeps_setup(final(self)),
            final(self).dir_spec() == old(self).dir_spec(),
            update_outcome(old(self).stored(), final(self).stored(), partition_path::<Self, T>(old(self)), r),
    {
        let path = self.file_path(T::PARTITION);
        self.insert_all_with_path(new_records, path.as_str())
    }

    /// Replaces the stored record with the same key.
    fn update<T: DatabaseRecordPartitioned + serde_core::Serialize + serde_core::de::DeserializeOwned>(
        &mut self,
        updated_record: T,
    ) -> (r: Result<()>)
        ensures
            old(self).keeps_setup(final(self)),
            final(self).dir_spec() == old(self).dir_spec(),
            update_outcome(old(self).stored(), final(self).stored(), partition_path::<Self, T>(old(self)), r),
    {
        let path = self.file_path(T::PARTITION);
        self.update_with_path(updated_record, path.as_str())
    }

    /// Replaces the stored records with the same keys; refused when a key is not stored.
    fn update_all<T: DatabaseRecordPartitioned + serde_core::Serialize + serde_core::de::DeserializeOwned>(
        &mut self,
        updated_records: Vec<T>,
    ) -> (r: Result<()>)
        ensures
            old(self).keeps_setup(final(self)),
            final(self).dir_spec() == old(self).dir_spec(),
            update_outcome(old(self).stored(), final(self).stored(), partition_path::<Self, T>(old(self)), r),
    {
        let path = self.file_path(T::PARTITION);
        self.update_all_with_path(updated_records, path.as_str())
    }

    /// Updates or inserts one record.
    fn upsert<T: DatabaseRecordPartitioned + serde_core::Serialize + serde_core::de::DeserializeOwned>(
        &mut self,
        upserted_record: T,
    ) -> (r: Result<()>)
        ensures
            old(self).keeps_setup(final(self)),
            final(self).dir_spec() == old(self).dir_spec(),
            update_outcome(old(self).stored(), final(self).stored(), partition_path::<Self, T>(old(self)), r),
            !(r matches Err(e) && e is DBOperationFailure),
    {
        let path = self.file_path(T::PARTITION);
        self.upsert_with_path(upserted_record, path.as_str())
    }

    /// Updates or inserts each record, in order.
    fn upsert_all<T: DatabaseRecordPartitioned + serde_core::Serialize + serde_core::de::DeserializeOwned>(
        &mut self,
        upserted_records: Vec<T>,
    ) -> (r: Result<()>)
        ensures
            old(self).keeps_setup(final(self)),
            final(self).dir_spec() == old(self).dir_spec(),
            update_outcome(old(self).stored(), final(self).stored(), partition_path::<Self, T>(old(self)), r),
            !(r matches Err(e) && e is DBOperationFailure),
    {
        let path = self.file_path(T::PARTITION);
        self.upsert_all_with_path(upserted_records, path.as_str())
    }

    /// Stores exactly `replaced_records` as the records of their kind;
    /// refused, without writing, when two of them share a key.
    fn replace_all<T: DatabaseRecordPartitioned + serde_core::Serialize + serde_core::de::DeserializeOwned>(
        &mut self,
        replaced_records: Vec<T>,
    ) -> (r: Result<()>)
        ensures
            old(self).keeps_setup(final(self)),
            final(self).dir_spec() == old(self).dir_spec(),
            replace_outcome(
                old(self).stored(),
                final(self).stored(),
                partition_path::<Self, T>(old(self)),
                replaced_records@,
                r,
            ),
    {
        let path = self.file_path(T::PARTITION);
        self.replace_all_with_path(replaced_records, path.as_str())
    }

    /// Stores `default_data` as the partition of kind `T` unless something is
    /// stored there.
    fn try_initialize_storage<
        T: DatabaseRecordPartitioned,
        O: serde_core::Serialize + serde_core::de::DeserializeOwned,
    >(&mut self, default_data: O) -> (r: Result<()>)
        ensures
            final(self).dir_spec() == old(self).dir_spec(),
            initialize_outcome(old(self).stored(), final(self).stored(), partition_path::<Self, T>(old(self)), r),
    {
        let path = self.file_path(T::PARTITION);
        self.try_initialize_storage_with_path(default_data, path.as_str())
    }
}

/// A database: record operations over one backend's storage.
pub trait Database: DatabaseOps {
    /// The name of the backend.
    const NAME: &'static str;

    /// A database whose storage paths lie under `dir`.
    fn new(dir: &str) -> (r: Self)
        ensures
            r.dir_spec() == dir@,
    ;
}

} // verus!
