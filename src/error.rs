use vstd::prelude::*;

verus! {

/// Every failure the store reports. Paths are carried as text.
#[derive(Debug)]
pub enum Error {
    TBD { reason: String },
    IOCreateDirFailure { path: String, reason: String },
    IOCopyFailure { path_from: String, path_destination: String, reason: String },
    IOWriteFailure { path: String, reason: String },
    SerializationFailure(String),
    DeserializationFailure(String),
    DBNotFound { file_path: String },
    DBCorrupt { file_path: String, reason: String },
    DBInaccessible { file_path: String, reason: String },
    /// A duplicate or a missing key; `uniques` lists the offending keys.
    DBOperationFailure { path: String, reason: String, uniques: Vec<u64> },
    DBTransactionCommitFailure { file_path: String, cause: Box<Error> },
    /// The rollback that followed a failed commit failed too: `cause` is the
    /// rollback's error, `commit_cause` the commit's.
    DBTransactionRollbackFailure {
        file_path: String,
        cause: Box<Error>,
        commit_cause: Option<Box<Error>>,
    },
}

pub type Result<T> = core::result::Result<T, Error>;

/// `e` reports that nothing is stored at `path`.
pub open spec fn is_not_found_at(e: Error, path: Seq<char>) -> bool {
    e matches Error::DBNotFound { file_path } && file_path@ == path
}

/// `e` is an operation failure at `path` naming exactly the keys `uniques`.
pub open spec fn is_operation_failure_at(e: Error, path: Seq<char>, uniques: Seq<u64>) -> bool {
    &&& e matches Error::DBOperationFailure { path: p, uniques: u, .. }
    &&& p@ == path
    &&& u@ == uniques
}

} // verus!
