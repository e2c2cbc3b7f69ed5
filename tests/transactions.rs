use lupabase::transaction::commit_failure;
use lupabase::{
    Database, DatabaseIO, DatabaseOps, DatabaseOpsCustom, DatabaseRecord, DatabaseRecordPartitioned,
    DatabaseTransaction, DatabaseTransactionIO, DatabaseTransactionOps, Error, MemoryDB, StorageBackend,
};
use serde_core::{Deserialize, Deserializer, Serialize, Serializer};

#[derive(Clone, Debug, PartialEq)]
pub struct TestRecordPartitioned {
    pub id: u64,
    pub data: String,
}

impl Serialize for TestRecordPartitioned {
    fn serialize<S: Serializer>(&self, s: S) -> Result<S::Ok, S::Error> {
        (self.id, &self.data).serialize(s)
    }
}

impl<'de> Deserialize<'de> for TestRecordPartitioned {
    fn deserialize<D: Deserializer<'de>>(d: D) -> Result<Self, D::Error> {
        let (id, data) = <(u64, String)>::deserialize(d)?;
        Ok(Self { id, data })
    }
}

impl DatabaseRecord for TestRecordPartitioned {
    fn unique_spec(&self) -> u64 {
        self.id
    }

    fn unique_value(&self) -> u64 {
        self.id
    }
}

impl DatabaseRecordPartitioned for TestRecordPartitioned {
    const PARTITION: &'static str = "TestRecordPartitioned";
}

impl TestRecordPartitioned {
    pub fn new(id: &mut u64) -> Self {
        *id += 1;
        Self { id: *id, data: format!("My data of {id}") }
    }
}

fn rec(id: u64, data: &str) -> TestRecordPartitioned {
    TestRecordPartitioned { id, data: data.to_string() }
}

fn plain(id: u64) -> TestRecordPartitioned {
    rec(id, &format!("My data of {id}"))
}

#[test]
fn transactions_memory() {
    let mut db = MemoryDB::new("transactions-memory");
    let id = &mut 0_u64;
    db.try_initialize_storage::<TestRecordPartitioned, Vec<TestRecordPartitioned>>(vec![]).unwrap();

    let mut tx = db.transact().unwrap();
    let current_records = db.get_all::<TestRecordPartitioned>().unwrap();
    tx.try_initialize_storage::<TestRecordPartitioned, Vec<TestRecordPartitioned>>(current_records)
        .unwrap();
    assert_eq!(tx.get_all::<TestRecordPartitioned>().unwrap(), vec![]);

    tx.insert(TestRecordPartitioned::new(id)).unwrap();
    tx.insert_all(vec![TestRecordPartitioned::new(id), TestRecordPartitioned::new(id)]).unwrap();
    let mut record = TestRecordPartitioned::new(id);
    tx.insert(record.clone()).unwrap();
    record.data = String::from("Data has been updated!");
    tx.update(record).unwrap();
    let expected = vec![plain(1), plain(2), plain(3), rec(4, "Data has been updated!")];
    assert_eq!(tx.get_all::<TestRecordPartitioned>().unwrap(), expected);

    let current_records = tx.get_all::<TestRecordPartitioned>().unwrap();
    tx.replace_all::<TestRecordPartitioned>(vec![]).unwrap();
    assert_eq!(tx.get_all::<TestRecordPartitioned>().unwrap(), vec![]);
    tx.replace_all(current_records).unwrap();
    assert_eq!(tx.get_all::<TestRecordPartitioned>().unwrap(), expected);

    assert_eq!(tx.get_all_before::<TestRecordPartitioned>().unwrap(), vec![]);
    assert_eq!(
        db.get_all::<TestRecordPartitioned>().unwrap(),
        tx.get_all_before::<TestRecordPartitioned>().unwrap()
    );

    tx.try_initialize_storage::<TestRecordPartitioned, Vec<TestRecordPartitioned>>(vec![]).unwrap();
    assert_eq!(tx.get_all::<TestRecordPartitioned>().unwrap(), expected);

    let db_records_before = db.get_all::<TestRecordPartitioned>().unwrap();
    let tx_records_current = tx.get_all::<TestRecordPartitioned>().unwrap();
    db.try_commit::<TestRecordPartitioned>(&mut tx).unwrap();
    assert_eq!(db.get_all::<TestRecordPartitioned>().unwrap(), tx_records_current);
    assert_eq!(tx.get_all::<TestRecordPartitioned>().unwrap(), tx_records_current);
    assert_eq!(tx.get_all_before::<TestRecordPartitioned>().unwrap(), db_records_before);
    db.try_rollback::<TestRecordPartitioned>(&mut tx).unwrap();
    assert_eq!(db.get_all::<TestRecordPartitioned>().unwrap(), db_records_before);
}

#[test]
fn transaction_with_paths_for_single_values() {
    let mut db = MemoryDB::new("dir");
    let db_path = db.file_path("Single");
    db.try_initialize_storage_with_path(plain(1), &db_path).unwrap();
    let mut tx = db.transact().unwrap();
    let tx_path = tx.file_path("Single");
    assert_eq!(tx_path, "Single.memorytransactdb");
    let current = db.try_read_storage::<TestRecordPartitioned>(&db_path).unwrap();
    tx.try_initialize_storage_with_path(current, &tx_path).unwrap();
    tx.try_write_storage(&rec(1, "changed"), &tx_path).unwrap();
    assert_eq!(tx.try_read_storage_before::<TestRecordPartitioned>(&tx_path).unwrap(), plain(1));
    db.try_commit_with_path::<TestRecordPartitioned>(&mut tx, &tx_path, &db_path).unwrap();
    assert_eq!(db.try_read_storage::<TestRecordPartitioned>(&db_path).unwrap(), rec(1, "changed"));
    db.try_rollback_with_path::<TestRecordPartitioned>(&mut tx, &tx_path, &db_path).unwrap();
    assert_eq!(db.try_read_storage::<TestRecordPartitioned>(&db_path).unwrap(), plain(1));
}

#[test]
fn transaction_is_isolated_from_the_primary() {
    let mut db = MemoryDB::new("dir");
    db.try_initialize_storage::<TestRecordPartitioned, Vec<TestRecordPartitioned>>(vec![plain(1)]).unwrap();
    let mut tx = db.transact().unwrap();
    let seed = db.get_all::<TestRecordPartitioned>().unwrap();
    tx.try_initialize_storage::<TestRecordPartitioned, Vec<TestRecordPartitioned>>(seed).unwrap();

    db.insert(plain(2)).unwrap();
    assert_eq!(tx.get_all::<TestRecordPartitioned>().unwrap(), vec![plain(1)]);
    assert_eq!(tx.get_all_before::<TestRecordPartitioned>().unwrap(), vec![plain(1)]);

    tx.insert(plain(3)).unwrap();
    assert_eq!(tx.get_all_before::<TestRecordPartitioned>().unwrap(), vec![plain(1)]);
    assert_eq!(db.get_all::<TestRecordPartitioned>().unwrap(), vec![plain(1), plain(2)]);
}

#[test]
fn rollback_restores_the_seed_not_the_latest_state() {
    let mut db = MemoryDB::new("dir");
    db.try_initialize_storage::<TestRecordPartitioned, Vec<TestRecordPartitioned>>(vec![plain(1)]).unwrap();
    let mut tx = db.transact().unwrap();
    let seed = db.get_all::<TestRecordPartitioned>().unwrap();
    tx.try_initialize_storage::<TestRecordPartitioned, Vec<TestRecordPartitioned>>(seed).unwrap();
    db.insert(plain(2)).unwrap();
    tx.upsert(rec(1, "changed")).unwrap();
    db.try_commit::<TestRecordPartitioned>(&mut tx).unwrap();
    assert_eq!(db.get_all::<TestRecordPartitioned>().unwrap(), vec![rec(1, "changed")]);
    db.insert(plain(5)).unwrap();
    db.try_rollback::<TestRecordPartitioned>(&mut tx).unwrap();
    assert_eq!(db.get_all::<TestRecordPartitioned>().unwrap(), vec![plain(1)]);
}

#[test]
fn new_transaction_is_empty() {
    let mut db = MemoryDB::new("dir");
    db.try_initialize_storage::<TestRecordPartitioned, Vec<TestRecordPartitioned>>(vec![plain(1)]).unwrap();
    let mut tx = db.transact().unwrap();
    assert!(matches!(tx.get_all::<TestRecordPartitioned>(), Err(Error::DBNotFound { .. })));
    assert!(matches!(tx.get_all_before::<TestRecordPartitioned>(), Err(Error::DBNotFound { .. })));
}

#[test]
fn commit_of_unseeded_transaction_is_not_found_and_changes_nothing() {
    let mut db = MemoryDB::new("dir");
    db.try_initialize_storage::<TestRecordPartitioned, Vec<TestRecordPartitioned>>(vec![plain(1)]).unwrap();
    let mut tx = db.transact().unwrap();
    let err = db.try_commit::<TestRecordPartitioned>(&mut tx).unwrap_err();
    assert!(matches!(err, Error::DBNotFound { ref file_path } if file_path == "TestRecordPartitioned.memorytransactdb"));
    let err = db.try_rollback::<TestRecordPartitioned>(&mut tx).unwrap_err();
    assert!(matches!(err, Error::DBNotFound { .. }));
    assert_eq!(db.get_all::<TestRecordPartitioned>().unwrap(), vec![plain(1)]);
}

#[test]
fn rollback_reads_before_even_when_after_differs() {
    let mut db = MemoryDB::new("dir");
    let mut tx = db.transact().unwrap();
    let tx_path = tx.file_path("P");
    tx.try_write_storage(&vec![plain(7)], &tx_path).unwrap();
    let err = db.try_rollback_with_path::<Vec<TestRecordPartitioned>>(&mut tx, &tx_path, "dir/P").unwrap_err();
    assert!(matches!(err, Error::DBNotFound { .. }));
    assert!(matches!(db.try_read_bytes("dir/P"), Err(Error::DBNotFound { .. })));
}

#[test]
fn commit_failure_reports_both_causes() {
    let e = commit_failure("p", Error::TBD { reason: "write".into() }, Ok(()));
    match e {
        Error::DBTransactionCommitFailure { file_path, cause } => {
            assert_eq!(file_path, "p");
            assert!(matches!(*cause, Error::TBD { ref reason } if reason == "write"));
        }
        other => panic!("unexpected error {other:?}"),
    }
    let e = commit_failure(
        "p",
        Error::TBD { reason: "write".into() },
        Err(Error::TBD { reason: "rollback".into() }),
    );
    match e {
        Error::DBTransactionRollbackFailure { file_path, cause, commit_cause } => {
            assert_eq!(file_path, "p");
            assert!(matches!(*cause, Error::TBD { ref reason } if reason == "rollback"));
            assert!(matches!(commit_cause.as_deref(), Some(Error::TBD { reason }) if reason == "write"));
        }
        other => panic!("unexpected error {other:?}"),
    }
}
