use lupabase::utils::parse_failure_error;
use lupabase::{
    backup_failed_parse, try_populate_storage, check_is_all_existing_records, check_is_all_new_records, Database, DatabaseIO, DatabaseOps,
    DatabaseOpsCustom, DatabaseRecord, DatabaseRecordPartitioned, DatabaseRecordsUtils, Error,
    MemoryDB, StorageBackend,
};
use serde_core::{Deserialize, Deserializer, Serialize, Serializer};

#[derive(Clone, Debug, PartialEq)]
pub struct TestRecord {
    pub id: u64,
    pub data: String,
}

impl Serialize for TestRecord {
    fn serialize<S: Serializer>(&self, s: S) -> Result<S::Ok, S::Error> {
        (self.id, &self.data).serialize(s)
    }
}

impl<'de> Deserialize<'de> for TestRecord {
    fn deserialize<D: Deserializer<'de>>(d: D) -> Result<Self, D::Error> {
        let (id, data) = <(u64, String)>::deserialize(d)?;
        Ok(Self { id, data })
    }
}

impl DatabaseRecord for TestRecord {
    fn unique_spec(&self) -> u64 {
        self.id
    }

    fn unique_value(&self) -> u64 {
        self.id
    }
}

impl TestRecord {
    pub fn new(id: &mut u64) -> Self {
        *id += 1;
        Self { id: *id, data: format!("My data of {id}") }
    }
}

#[derive(Clone, Debug, PartialEq)]
pub struct TestRecordPartitioned {
    pub id: u64,
    pub data: String,
}

impl Serialize for TestRecordPartitioned {
    fn serialize<S: Serializer>(&self, s: S) -> Result<S::Ok, S::Error> {
        (self.id, &self.data).serialize(s)
    }
}

impl<'de> Deserialize<'de> for TestRecordPartitioned {
    fn deserialize<D: Deserializer<'de>>(d: D) -> Result<Self, D::Error> {
        let (id, data) = <(u64, String)>::deserialize(d)?;
        Ok(Self { id, data })
    }
}

impl DatabaseRecord for TestRecordPartitioned {
    fn unique_spec(&self) -> u64 {
        self.id
    }

    fn unique_value(&self) -> u64 {
        self.id
    }
}

impl DatabaseRecordPartitioned for TestRecordPartitioned {
    const PARTITION: &'static str = "TestRecordPartitioned";
}

impl TestRecordPartitioned {
    pub fn new(id: &mut u64) -> Self {
        *id += 1;
        Self { id: *id, data: format!("My data of {id}") }
    }
}

fn rec(id: u64, data: &str) -> TestRecordPartitioned {
    TestRecordPartitioned { id, data: data.to_string() }
}

fn plain(id: u64) -> TestRecordPartitioned {
    rec(id, &format!("My data of {id}"))
}

#[test]
fn basics_memory() {
    let mut db = MemoryDB::new("basics-memory");

    // Partitioned
    db.try_initialize_storage::<TestRecordPartitioned, Vec<TestRecordPartitioned>>(vec![]).unwrap();
    assert_eq!(db.get_all::<TestRecordPartitioned>().unwrap(), vec![]);

    let id = &mut 0_u64;
    db.insert(TestRecordPartitioned::new(id)).unwrap();
    assert_eq!(db.get_all::<TestRecordPartitioned>().unwrap(), vec![plain(1)]);

    db.insert_all(vec![TestRecordPartitioned::new(id), TestRecordPartitioned::new(id)]).unwrap();
    assert_eq!(db.get_all::<TestRecordPartitioned>().unwrap(), vec![plain(1), plain(2), plain(3)]);

    let mut record = TestRecordPartitioned::new(id);
    db.insert(record.clone()).unwrap();
    record.data = String::from("Data has been updated!");
    db.update(record).unwrap();
    assert_eq!(
        db.get_all::<TestRecordPartitioned>().unwrap(),
        vec![plain(1), plain(2), plain(3), rec(4, "Data has been updated!")]
    );

    let mut record_1 = TestRecordPartitioned::new(id);
    let mut record_2 = TestRecordPartitioned::new(id);
    let mut record_3 = TestRecordPartitioned::new(id);
    db.insert_all(vec![record_1.clone(), record_2.clone(), record_3.clone()]).unwrap();
    record_1.data = String::from("Data 1 has been updated!");
    record_2.data = String::from("Data 2 has been updated!");
    record_3.data = String::from("Data 3 has been updated!");
    // Updating out of order should be fine!
    db.update_all(vec![record_1, record_3, record_2]).unwrap();
    let after_update_all = vec![
        plain(1),
        plain(2),
        plain(3),
        rec(4, "Data has been updated!"),
        rec(5, "Data 1 has been updated!"),
        rec(6, "Data 2 has been updated!"),
        rec(7, "Data 3 has been updated!"),
    ];
    assert_eq!(db.get_all::<TestRecordPartitioned>().unwrap(), after_update_all);

    let mut record = TestRecordPartitioned::new(id);
    db.upsert(record.clone()).unwrap();
    record.data = String::from("Data has been upserted!");
    db.upsert(record).unwrap();
    let mut expected = after_update_all.clone();
    expected.push(rec(8, "Data has been upserted!"));
    assert_eq!(db.get_all::<TestRecordPartitioned>().unwrap(), expected);

    let mut record_1 = TestRecordPartitioned::new(id);
    let mut record_2 = TestRecordPartitioned::new(id);
    let mut record_3 = TestRecordPartitioned::new(id);
    db.upsert_all(vec![record_1.clone(), record_2.clone()]).unwrap();
    record_1.data = String::from("Data 1 has been upserted!");
    record_2.data = String::from("Data 2 has been upserted!");
    record_3.data = String::from("Data 3 has been upserted!");
    db.upsert_all(vec![record_1, record_3, record_2]).unwrap();
    expected.push(rec(9, "Data 1 has been upserted!"));
    expected.push(rec(10, "Data 2 has been upserted!"));
    expected.push(rec(11, "Data 3 has been upserted!"));
    assert_eq!(db.get_all::<TestRecordPartitioned>().unwrap(), expected);

    let current_records = db.get_all::<TestRecordPartitioned>().unwrap();
    db.replace_all::<TestRecordPartitioned>(vec![]).unwrap();
    assert_eq!(db.get_all::<TestRecordPartitioned>().unwrap(), vec![]);
    db.replace_all(current_records).unwrap();
    assert_eq!(db.get_all::<TestRecordPartitioned>().unwrap(), expected);

    db.try_initialize_storage::<TestRecordPartitioned, Vec<TestRecordPartitioned>>(vec![]).unwrap();
    assert_eq!(db.get_all::<TestRecordPartitioned>().unwrap(), expected);

    // Collection
    let db_file_path = db.file_path("TestRecords");
    db.try_initialize_storage_with_path(Vec::<TestRecord>::new(), &db_file_path).unwrap();
    assert_eq!(db.try_read_storage::<Vec<TestRecord>>(&db_file_path).unwrap(), vec![]);

    let id = &mut 0_u64;
    let mut records = db.try_read_storage::<Vec<TestRecord>>(&db_file_path).unwrap();
    records.push(TestRecord::new(id));
    records.push(TestRecord::new(id));
    db.try_write_storage(&records, &db_file_path).unwrap();
    assert_eq!(db.try_read_storage::<Vec<TestRecord>>(&db_file_path).unwrap(), records);

    let backup_path = db.try_backup_storage(&db_file_path, "Manual backup").unwrap();
    assert_eq!(db.try_read_storage::<Vec<TestRecord>>(&backup_path).unwrap(), records);

    db.try_initialize_storage_with_path(Vec::<TestRecord>::new(), &db_file_path).unwrap();
    assert_eq!(db.try_read_storage::<Vec<TestRecord>>(&db_file_path).unwrap(), records);

    // Single
    let db_file_path = db.file_path("TestRecord");
    let id = &mut 0_u64;
    let default_record = TestRecord::new(id);
    db.try_initialize_storage_with_path(default_record.clone(), &db_file_path).unwrap();
    assert_eq!(db.try_read_storage::<TestRecord>(&db_file_path).unwrap(), default_record);

    let mut record = db.try_read_storage::<TestRecord>(&db_file_path).unwrap();
    record.data = String::from("Modified the data");
    db.try_write_storage(&record, &db_file_path).unwrap();
    assert_eq!(db.try_read_storage::<TestRecord>(&db_file_path).unwrap(), record);

    let backup_path = db.try_backup_storage(&db_file_path, "Manual backup").unwrap();
    assert_eq!(db.try_read_storage::<TestRecord>(&backup_path).unwrap(), record);

    db.try_initialize_storage_with_path(default_record, &db_file_path).unwrap();
    assert_eq!(db.try_read_storage::<TestRecord>(&db_file_path).unwrap(), record);
}

#[test]
fn insert_of_stored_key_is_refused_and_changes_nothing() {
    let mut db = MemoryDB::new("dir");
    db.try_initialize_storage::<TestRecordPartitioned, Vec<TestRecordPartitioned>>(vec![]).unwrap();
    db.insert(rec(1, "a")).unwrap();
    let err = db.insert(rec(1, "b")).unwrap_err();
    match err {
        Error::DBOperationFailure { path, uniques, .. } => {
            assert_eq!(path, "dir/TestRecordPartitioned.memorydb");
            assert_eq!(uniques, vec![1]);
        }
        other => panic!("unexpected error {other:?}"),
    }
    assert_eq!(db.get_all::<TestRecordPartitioned>().unwrap(), vec![rec(1, "a")]);
}

#[test]
fn insert_of_repeated_new_keys_is_refused() {
    let mut db = MemoryDB::new("dir");
    db.try_initialize_storage::<TestRecordPartitioned, Vec<TestRecordPartitioned>>(vec![]).unwrap();
    let err = db.insert_all(vec![rec(4, "a"), rec(4, "b")]).unwrap_err();
    assert!(matches!(err, Error::DBOperationFailure { ref uniques, .. } if uniques == &vec![4]));
    assert_eq!(db.get_all::<TestRecordPartitioned>().unwrap(), vec![]);
}

#[test]
fn update_of_missing_key_is_refused_and_changes_nothing() {
    let mut db = MemoryDB::new("dir");
    db.try_initialize_storage::<TestRecordPartitioned, Vec<TestRecordPartitioned>>(vec![rec(1, "a")])
        .unwrap();
    let err = db.update_all(vec![rec(1, "x"), rec(7, "y"), rec(9, "z")]).unwrap_err();
    assert!(matches!(err, Error::DBOperationFailure { ref uniques, .. } if uniques == &vec![7, 9]));
    assert_eq!(db.get_all::<TestRecordPartitioned>().unwrap(), vec![rec(1, "a")]);
}

#[test]
fn upsert_same_key_twice_keeps_the_second() {
    let mut db = MemoryDB::new("dir");
    db.try_initialize_storage::<TestRecordPartitioned, Vec<TestRecordPartitioned>>(vec![]).unwrap();
    db.upsert(rec(1, "a")).unwrap();
    db.upsert(rec(1, "b")).unwrap();
    assert_eq!(db.get_all::<TestRecordPartitioned>().unwrap(), vec![rec(1, "b")]);
}

#[test]
fn replace_all_clears_and_restores() {
    let mut db = MemoryDB::new("dir");
    db.try_initialize_storage::<TestRecordPartitioned, Vec<TestRecordPartitioned>>(vec![rec(3, "c")])
        .unwrap();
    let prior = vec![rec(2, "b"), rec(1, "a")];
    db.replace_all::<TestRecordPartitioned>(vec![]).unwrap();
    assert_eq!(db.get_all::<TestRecordPartitioned>().unwrap(), vec![]);
    db.replace_all(prior.clone()).unwrap();
    assert_eq!(db.get_all::<TestRecordPartitioned>().unwrap(), prior);
}

#[test]
fn replace_all_with_shared_key_is_refused_and_changes_nothing() {
    let mut db = MemoryDB::new("dir");
    db.try_initialize_storage::<TestRecordPartitioned, Vec<TestRecordPartitioned>>(vec![rec(3, "c")])
        .unwrap();
    let err = db.replace_all(vec![rec(1, "a"), rec(2, "b"), rec(1, "c"), rec(2, "d")]).unwrap_err();
    let partition = db.file_path(TestRecordPartitioned::PARTITION);
    assert!(matches!(err, Error::DBOperationFailure { ref path, ref uniques, .. } if uniques == &vec![1] && path == &partition));
    assert_eq!(db.get_all::<TestRecordPartitioned>().unwrap(), vec![rec(3, "c")]);
}

#[test]
fn replace_all_writes_even_without_prior_partition() {
    let mut db = MemoryDB::new("dir");
    db.replace_all(vec![rec(5, "e")]).unwrap();
    assert_eq!(db.get_all::<TestRecordPartitioned>().unwrap(), vec![rec(5, "e")]);
}

#[test]
fn initialize_twice_keeps_the_first_data() {
    let mut db = MemoryDB::new("dir");
    db.try_initialize_storage::<TestRecordPartitioned, Vec<TestRecordPartitioned>>(vec![rec(1, "first")])
        .unwrap();
    db.try_initialize_storage::<TestRecordPartitioned, Vec<TestRecordPartitioned>>(vec![rec(2, "second")])
        .unwrap();
    assert_eq!(db.get_all::<TestRecordPartitioned>().unwrap(), vec![rec(1, "first")]);
}

#[test]
fn missing_partition_is_not_found() {
    let mut db = MemoryDB::new("dir");
    let err = db.get_all::<TestRecordPartitioned>().unwrap_err();
    assert!(matches!(err, Error::DBNotFound { ref file_path } if file_path == "dir/TestRecordPartitioned.memorydb"));
    let err = db.insert(rec(1, "a")).unwrap_err();
    assert!(matches!(err, Error::DBNotFound { .. }));
    let err = db.update(rec(1, "a")).unwrap_err();
    assert!(matches!(err, Error::DBNotFound { .. }));
    let err = db.upsert(rec(1, "a")).unwrap_err();
    assert!(matches!(err, Error::DBNotFound { .. }));
}

#[test]
fn round_trip_of_values() {
    let mut db = MemoryDB::new("dir");
    let empty: Vec<TestRecord> = vec![];
    db.try_write_storage(&empty, "empty").unwrap();
    assert_eq!(db.try_read_storage::<Vec<TestRecord>>("empty").unwrap(), empty);
    let some = vec![TestRecord { id: 1, data: "x".into() }, TestRecord { id: 2, data: "y".into() }];
    db.try_write_storage(&some, "some").unwrap();
    assert_eq!(db.try_read_storage::<Vec<TestRecord>>("some").unwrap(), some);
    let single = TestRecord { id: 9, data: "z".into() };
    db.try_write_storage(&single, "single").unwrap();
    assert_eq!(db.try_read_storage::<TestRecord>("single").unwrap(), single);
    // The stored bytes are an encoding, not the value handed over.
    assert_ne!(db.try_read_bytes("single").unwrap(), Vec::<u8>::new());
}

#[test]
fn corrupt_partition_is_backed_up_once() {
    let mut db = MemoryDB::new("dir");
    let path = db.file_path(TestRecordPartitioned::PARTITION);
    let garbage = vec![0xff_u8, 0xff, 0x00];
    db.try_write_bytes(garbage.clone(), &path).unwrap();
    let before = chrono::Local::now().timestamp();
    let err = db.get_all::<TestRecordPartitioned>().unwrap_err();
    let after = chrono::Local::now().timestamp();
    assert!(matches!(err, Error::DBCorrupt { ref file_path, .. } if file_path == &path));
    let mut backups = 0;
    for t in before..=after {
        let backup = format!("{path}.FAILED_PARSING-{t}.bak");
        if let Ok(bytes) = db.try_read_bytes(&backup) {
            assert_eq!(bytes, garbage);
            backups += 1;
        }
    }
    assert_eq!(backups, 1);
    assert_eq!(db.try_read_bytes(&path).unwrap(), garbage);
}

#[test]
fn backup_path_names_time_and_reason() {
    let mut db = MemoryDB::new("dir");
    db.try_write_bytes(vec![1, 2, 3], "dir/p.memorydb").unwrap();
    let before = chrono::Local::now().timestamp();
    let b = db.try_backup_storage("dir/p.memorydb", "why").unwrap();
    let after = chrono::Local::now().timestamp();
    let stamp: i64 = b
        .strip_prefix("dir/p.memorydb.why-")
        .and_then(|rest| rest.strip_suffix(".bak"))
        .unwrap()
        .parse()
        .unwrap();
    assert!(before <= stamp && stamp <= after);
    assert_eq!(db.try_read_bytes(&b).unwrap(), vec![1, 2, 3]);
    let err = db.try_backup_storage("dir/absent", "why").unwrap_err();
    assert!(matches!(err, Error::DBNotFound { .. }));
}

#[test]
fn file_path_joins_dir_name_and_extension() {
    let db = MemoryDB::new("base");
    assert_eq!(db.file_path("Things"), "base/Things.memorydb");
    let db = MemoryDB::new("");
    assert_eq!(db.file_path("Things"), "Things.memorydb");
    assert_eq!(db.dir(), "");
}

#[test]
fn record_utils_examples() {
    let a = [plain(1), plain(2), plain(3)];
    let b = [plain(2), plain(3), plain(4)];
    assert_eq!(a.as_uniques(), vec![1, 2, 3]);
    assert_eq!(a.find_intersecting_uniques_from(&b), vec![2, 3]);
    let c = [plain(3), plain(2), plain(3)];
    assert_eq!(c.find_intersecting_uniques_from(&[plain(2), plain(1), plain(3)]), vec![3, 2]);
    assert_eq!(a.find_non_intersecting_uniques_from(&b), vec![4]);
    assert_eq!(a.find_by_unique(2).unwrap().id, 2);
    assert!(a.find_by_unique(9).is_none());
    assert_eq!(a.position_by_unique(3), Some(2));
    assert_eq!(a.position_by_unique(0), None);
}

#[test]
fn check_new_and_existing_records() {
    let current = [plain(1), plain(2)];
    assert!(check_is_all_new_records(&current, &[plain(3), plain(4)], "p").is_ok());
    let err = check_is_all_new_records(&current, &[plain(2), plain(3), plain(3)], "p").unwrap_err();
    match err {
        Error::DBOperationFailure { path, mut uniques, .. } => {
            assert_eq!(path, "p");
            uniques.sort();
            assert_eq!(uniques, vec![2, 3]);
        }
        other => panic!("unexpected error {other:?}"),
    }
    assert!(check_is_all_existing_records(&current, &[plain(2), plain(1)], "p").is_ok());
    let err = check_is_all_existing_records(&current, &[plain(5), plain(2), plain(6)], "q").unwrap_err();
    assert!(matches!(err, Error::DBOperationFailure { ref path, ref uniques, .. } if path == "q" && uniques == &vec![5, 6]));
}

#[test]
fn populate_writes_only_where_nothing_is_stored() {
    let mut db = MemoryDB::new("dir");
    try_populate_storage(&mut db, &vec![plain(1)], "dir/a").unwrap();
    assert_eq!(db.try_read_storage::<Vec<TestRecordPartitioned>>("dir/a").unwrap(), vec![plain(1)]);
    try_populate_storage(&mut db, &vec![plain(2)], "dir/a").unwrap();
    assert_eq!(db.try_read_storage::<Vec<TestRecordPartitioned>>("dir/a").unwrap(), vec![plain(1)]);
}

#[test]
fn initialize_over_unreadable_data_fails_without_overwriting() {
    let mut db = MemoryDB::new("dir");
    let path = db.file_path(TestRecordPartitioned::PARTITION);
    db.try_write_bytes(vec![0xff], &path).unwrap();
    let err = db
        .try_initialize_storage::<TestRecordPartitioned, Vec<TestRecordPartitioned>>(vec![plain(1)])
        .unwrap_err();
    assert!(matches!(err, Error::DBCorrupt { ref reason, .. } if !reason.is_empty()));
    assert_eq!(db.try_read_bytes(&path).unwrap(), vec![0xff]);
}

#[test]
fn backup_failed_parse_reports_corrupt_with_the_decoder_message() {
    let mut db = MemoryDB::new("dir");
    db.try_write_bytes(vec![9, 9], "dir/x").unwrap();
    let e = backup_failed_parse(&mut db, "dir/x", Error::DeserializationFailure("bad byte".into()));
    assert!(matches!(e, Error::DBCorrupt { ref file_path, ref reason } if file_path == "dir/x" && reason == "bad byte"));
    let e = backup_failed_parse(&mut db, "dir/missing", Error::DeserializationFailure("bad byte".into()));
    assert!(matches!(e, Error::DBNotFound { ref file_path } if file_path == "dir/missing"));
}

#[test]
fn parse_failure_error_follows_the_backup() {
    let e = parse_failure_error("p", Error::DeserializationFailure("m".into()), Ok("p.1-r.bak".into()));
    assert!(matches!(e, Error::DBCorrupt { ref file_path, ref reason } if file_path == "p" && reason == "m"));
    let e = parse_failure_error(
        "p",
        Error::DeserializationFailure("m".into()),
        Err(Error::IOCopyFailure { path_from: "p".into(), path_destination: "q".into(), reason: "full".into() }),
    );
    assert!(matches!(e, Error::IOCopyFailure { ref reason, .. } if reason == "full"));
}

#[test]
fn json_codec_writes_text_and_reads_it_back() {
    let record = TestRecord { id: 1, data: "a".into() };
    let bytes = lupabase::codec::json_encode(&record).unwrap();
    assert_eq!(bytes, b"[1,\"a\"]".to_vec());
    assert_eq!(lupabase::codec::json_decode::<TestRecord>(&bytes).unwrap(), record);
    let err = lupabase::codec::json_decode::<TestRecord>(b"{").unwrap_err();
    assert!(matches!(err, Error::DeserializationFailure(ref m) if !m.is_empty()));
}

#[test]
fn copy_from_missing_source_is_not_found_and_changes_nothing() {
    let mut db = MemoryDB::new("dir");
    let err = db.try_copy_storage("dir/absent", "dir/copy").unwrap_err();
    assert!(matches!(err, Error::DBNotFound { ref file_path } if file_path == "dir/absent"));
    assert!(matches!(db.try_read_bytes("dir/copy"), Err(Error::DBNotFound { .. })));
    db.try_write_bytes(vec![4], "dir/src").unwrap();
    db.try_copy_storage("dir/src", "dir/copy").unwrap();
    assert_eq!(db.try_read_bytes("dir/copy").unwrap(), vec![4]);
}
