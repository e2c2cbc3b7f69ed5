//! A database held in memory: bytes by path, encoded as CBOR.
use vstd::prelude::*;
use vstd::string::StringExecFns;
use crate::codec::{cbor_encode, cbor_decode};
use crate::backup::{backup_path, backup_path_of};
use crate::database::{
    Stored, StorageBackend, DatabaseIO, DatabaseOpsCustom, DatabaseOps, Database, backed_up,
    changed_at_most, parse_backup_reason, lemma_backup_keeps_path,
};
use crate::utils::parse_failure_error;
use crate::error::{Error, Result, is_not_found_at};
use crate::store::{PathStore, path_store_contents};

verus! {

/// A database whose partitions live in a map in memory.
pub struct MemoryDB {
    dir: String,
    store: PathStore,
}

impl MemoryDB {
    /// A database with nothing stored, whose paths lie under `dir`.
    pub fn with_dir(dir: &str) -> (r: MemoryDB)
        ensures
            r.stored().dom().is_empty(),
            r.dir_spec() == dir@,
    {
        MemoryDB { dir: String::from_str(dir), store: PathStore::new() }
    }
}

impl StorageBackend for MemoryDB {
    const EXTENSION: &'static str = "memorydb";

    closed spec fn stored(&self) -> Stored {
        path_store_contents(self.store)
    }

    closed spec fn dir_spec(&self) -> Seq<char> {
        self.dir@
    }

    closed spec fn keeps_setup(&self, later: &Self) -> bool {
        self.dir@ == later.dir@
    }

    proof fn lemma_keeps_setup_reflexive(&self) {
    }

    proof fn lemma_keeps_setup_transitive(&self, b: &Self, c: &Self) {
    }

    fn dir(&self) -> (r: String) {
        self.dir.clone()
    }

    fn try_read_bytes(&self, path: &str) -> (r: Result<Vec<u8>>)
        ensures
            r is Ok <==> self.stored().contains_key(path@),
    {
        match self.store.get(path) {
            Some(b) => Ok(b),
            None => Err(Error::DBNotFound { file_path: String::from_str(path) }),
        }
    }

    fn try_write_bytes(&mut self, bytes: Vec<u8>, path: &str) -> (r: Result<()>)
        ensures
            r is Ok,
    {
        self.store.insert(String::from_str(path), bytes);
        Ok(())
    }

    fn try_copy_storage(&mut self, source: &str, destination: &str) -> (r: Result<()>)
        ensures
            r is Ok <==> old(self).stored().contains_key(source@),
            !old(self).stored().contains_key(source@) ==> (r matches Err(e) && is_not_found_at(e, source@)
                && final(self).stored() == old(self).stored()),
    {
        match self.store.get(source) {
            Some(b) => {
                self.store.insert(String::from_str(destination), b);
                Ok(())
            },
            None => Err(Error::DBNotFound { file_path: String::from_str(source) }),
        }
    }

    fn encode<O: serde_core::Serialize>(&self, data: &O) -> (r: Result<Vec<u8>>) {
        cbor_encode(data)
    }

    /// In memory a stored path can be backed up whenever the clock gives a
    /// time.
    fn try_backup_storage(&mut self, path: &str, reason: &str) -> (r: Result<String>)
        ensures
            r is Ok ==> old(self).stored().contains_key(path@),
            (r is Err && old(self).stored().contains_key(path@)) ==> (r->Err_0 is IOCopyFailure
                && final(self).stored() == old(self).stored()),
    {
        let destination = match backup_path(path, reason) {
            Some(d) => d,
            None => {
                proof {
                    assert(changed_at_most(self.stored(), self.stored(), backup_path_of(path@, 0, reason@)));
                }
                return Err(Error::IOCopyFailure {
                path_from: String::from_str(path),
                path_destination: String::new(),
                reason: String::from_str("the system clock reads earlier than the Unix epoch"),
            });
            },
        };
        match self.try_copy_storage(path, destination.as_str()) {
            Ok(()) => Ok(destination),
            Err(e) => Err(e),
        }
    }

    fn decode<O: serde_core::de::DeserializeOwned>(&self, bytes: &[u8]) -> (r: Result<O>) {
        cbor_decode(bytes)
    }
}

impl DatabaseIO for MemoryDB {
    /// In memory, reading a stored path fails only when its bytes do not
    /// decode; the failure is then reported as corrupt, after a backup of
    /// those bytes.
    fn try_read_storage<O: serde_core::de::DeserializeOwned>(&mut self, path: &str) -> (r: Result<O>)
        ensures
            (r is Err && old(self).stored().contains_key(path@)) ==> ((r->Err_0 is DBCorrupt
                && r->Err_0->DBCorrupt_file_path@ == path@
                && backed_up(old(self).stored(), final(self).stored(), path@)) || (r->Err_0 is IOCopyFailure
                && final(self).stored() == old(self).stored())),
    {
        proof {
            self.lemma_keeps_setup_reflexive();
            assert(changed_at_most(self.stored(), self.stored(), backup_path_of(path@, 0, parse_backup_reason())));
        }
        let bytes = match self.try_read_bytes(path) {
            Ok(b) => b,
            Err(e) => {
                return Err(e);
            },
        };
        let ghost before = self.stored();
        match self.decode(bytes.as_slice()) {
            Ok(v) => Ok(v),
            Err(e) => {
                let backup = self.try_backup_storage(path, "FAILED_PARSING");
                proof {
                    reveal_strlit("FAILED_PARSING");
                    assert("FAILED_PARSING"@ == parse_backup_reason());
                    if backup is Ok {
                    let b = backup->Ok_0;
                    let t = choose|t: u64| b@ == backup_path_of(path@, t, "FAILED_PARSING"@);
                    assert(self.stored().remove(b@) =~= before.remove(b@));
                    assert(changed_at_most(before, self.stored(), backup_path_of(path@, t, parse_backup_reason())));
                    assert(backed_up(before, self.stored(), path@));
                    lemma_backup_keeps_path(before, self.stored(), path@);
                    }
                }
                Err(parse_failure_error(path, e, backup))
            },
        }
    }
}

impl DatabaseOpsCustom for MemoryDB {
    fn try_initialize_storage_with_path<O: serde_core::Serialize + serde_core::de::DeserializeOwned>(
        &mut self,
        default_data: O,
        path: &str,
    ) -> (r: Result<()>) {
        crate::utils::try_populate_storage(self, &default_data, path)
    }
}

impl DatabaseOps for MemoryDB {
}

impl Database for MemoryDB {
    const NAME: &'static str = "MemoryDB";

    fn new(dir: &str) -> (r: MemoryDB)
        ensures
            r.stored().dom().is_empty(),
    {
        MemoryDB::with_dir(dir)
    }
}

} // verus!
