//! An embedded record store: typed records grouped into named partitions,
//! whole-partition read/modify/write operations that keep every record key
//! unique, snapshot transactions, and composite operations over several
//! record kinds.

pub mod error;
pub mod record;
pub mod record_utils;
pub mod utils;
pub mod partition;
pub mod laws;
pub mod store;
pub mod codec;
pub mod backup;
pub mod database;
pub mod memorydb;
pub mod transaction;
pub mod operatable;

pub use database::{Database, DatabaseIO, DatabaseOps, DatabaseOpsCustom, StorageBackend};
pub use error::{Error, Result};
pub use memorydb::MemoryDB;
pub use operatable::DatabaseOpsOperatable;
pub use record::{DatabaseRecord, DatabaseRecordPartitioned};
pub use record_utils::DatabaseRecordsUtils;
pub use transaction::{
    DatabaseTransaction, DatabaseTransactionIO, DatabaseTransactionOps, MemoryDBTransaction,
};
pub use utils::{
    backup_failed_parse, check_is_all_existing_records, check_is_all_new_records, populate_step,
    try_populate_storage, PopulateAction,
};
