use vstd::prelude::*;
use vstd::string::StringExecFns;
use crate::error::{Error, Result, is_operation_failure_at};
use crate::record::{DatabaseRecord, uniques_of};
use crate::record_utils::{DatabaseRecordsUtils, repeated_in, absent_from};

verus! {

/// The keys that occur more than once among `current` followed by `new`.
pub open spec fn colliding_uniques<T: DatabaseRecord>(current: Seq<T>, new: Seq<T>, k: u64) -> bool {
    repeated_in(uniques_of(current) + uniques_of(new), k)
}

/// Fails when some key occurs more than once among `current_records` and
/// `new_records` together: a new key that is already stored, or one repeated
/// among the new records.
pub fn check_is_all_new_records<T: DatabaseRecord>(
    current_records: &[T],
    new_records: &[T],
    path: &str,
) -> (r: Result<()>)
    ensures
        r is Ok <==> forall|k: u64| !colliding_uniques(current_records@, new_records@, k),
        r matches Err(e) ==> e matches Error::DBOperationFailure { path: p, uniques, .. }
            && p@ == path@ && uniques@.len() > 0 && uniques@.no_duplicates()
            && forall|k: u64| uniques@.contains(k) <==> colliding_uniques(current_records@, new_records@, k),
{
    let duplicates = current_records.find_intersecting_uniques_from(new_records);
    if duplicates.len() > 0 {
        proof {
            assert(duplicates@.contains(duplicates@[0]));
            assert(colliding_uniques(current_records@, new_records@, duplicates@[0]));
        }
        return Err(Error::DBOperationFailure {
            path: String::from_str(path),
            reason: String::from_str("duplicate unique value(s) when inserting"),
            uniques: duplicates,
        });
    }
    proof {
        assert forall|k: u64| !colliding_uniques(current_records@, new_records@, k) by {
            if colliding_uniques(current_records@, new_records@, k) {
                assert(duplicates@.contains(k));
            }
        }
    }
    Ok(())
}

/// Fails when some record of `new_records` has a key that no record of
/// `current_records` has; the error lists those keys in order.
pub fn check_is_all_existing_records<T: DatabaseRecord>(
    current_records: &[T],
    new_records: &[T],
    path: &str,
) -> (r: Result<()>)
    ensures
        r is Ok <==> forall|k: u64| uniques_of(new_records@).contains(k) ==> uniques_of(current_records@).contains(k),
        r matches Err(e) ==> is_operation_failure_at(
            e,
            path@,
            uniques_of(new_records@).filter(absent_from(current_records@)),
        ),
{
    let non_matching = current_records.find_non_intersecting_uniques_from(new_records);
    let ghost missing = absent_from(current_records@);
    let ghost u = uniques_of(new_records@);
    proof {
        assert forall|k: u64| u.contains(k) && missing(k) implies non_matching@.contains(k) by {
            let i = choose|i: int| 0 <= i < u.len() && u[i] == k;
            u.lemma_filter_contains(missing, i);
        }
    }
    if non_matching.len() > 0 {
        proof {
            let k0 = non_matching@[0];
            assert(non_matching@.contains(k0));
            u.lemma_filter_contains_rev(missing, k0);
            u.lemma_filter_pred(missing, 0);
        }
        return Err(Error::DBOperationFailure {
            path: String::from_str(path),
            reason: String::from_str("unmatched unique value(s) when updating"),
            uniques: non_matching,
        });
    }
    proof {
        assert forall|k: u64| u.contains(k) implies uniques_of(current_records@).contains(k) by {
            if !uniques_of(current_records@).contains(k) {
                assert(missing(k));
                assert(non_matching@.contains(k));
            }
        }
    }
    Ok(())
}

} // verus!

verus! {

/// The error to report for bytes at `path` that did not decode with
/// `error`, given how their backup went: corrupt (with the decoder's message)
/// when the backup was made, else the backup's failure.
pub fn parse_failure_error(path: &str, error: Error, backup: Result<String>) -> (r: Error)
    ensures
        backup is Ok ==> (r matches Error::DBCorrupt { file_path, .. } && file_path@ == path@),
        backup is Ok && error is DeserializationFailure ==> (r matches Error::DBCorrupt { reason, .. }
            && reason == error->DeserializationFailure_0),
        backup matches Err(e) ==> r == e,
{
    match backup {
        Ok(_) => {
            let reason = match error {
                Error::DeserializationFailure(message) => message,
                _ => String::from_str("unreadable contents"),
            };
            Error::DBCorrupt { file_path: String::from_str(path), reason }
        },
        Err(e) => e,
    }
}

/// Copies the unreadable bytes at `path` to a backup path, and returns the
/// error to report: corrupt, with the cause of `error`, or the copy's failure.
pub fn backup_failed_parse<D: crate::database::StorageBackend>(database: &mut D, path: &str, error: Error) -> (r: Error)
    ensures
        crate::database::same_setup(old(database), final(database)),
        !(r is DBOperationFailure),
        r is DBNotFound ==> !old(database).stored().contains_key(path@),
        crate::database::backup_touched(old(database).stored(), final(database).stored(), path@),
        r is DBCorrupt ==> r->DBCorrupt_file_path@ == path@ && crate::database::backed_up(
            old(database).stored(),
            final(database).stored(),
            path@,
        ),
        !(r is DBCorrupt) ==> (r is IOCopyFailure || r is DBNotFound),
{
    let ghost before = database.stored();
    let r = database.try_backup_storage(path, "FAILED_PARSING");
    proof {
        reveal_strlit("FAILED_PARSING");
        assert("FAILED_PARSING"@ == crate::database::parse_backup_reason());
        if r is Ok {
            let b = r->Ok_0;
            let t = choose|t: u64| b@ == crate::backup::backup_path_of(path@, t, "FAILED_PARSING"@);
            assert(database.stored().remove(b@) =~= before.remove(b@));
            assert(crate::database::changed_at_most(before, database.stored(), crate::backup::backup_path_of(path@, t, crate::database::parse_backup_reason())));
            assert(crate::database::backed_up(before, database.stored(), path@));
        }
    }
    parse_failure_error(path, error, r)
}

} // verus!

verus! {

/// What initializing a path does after reading it.
pub enum PopulateAction {
    /// A readable value is there: keep it.
    Keep,
    /// Nothing is there: write the default.
    WriteDefault,
    /// The value there cannot be read: fail with the read's error.
    Fail(Error),
}

/// Decides, from the result of reading a path, what initializing it does.
pub fn populate_step<O>(read: Result<O>) -> (a: PopulateAction)
    ensures
        read is Ok <==> a is Keep,
        (read matches Err(e) && e is DBNotFound) <==> a is WriteDefault,
        (read matches Err(e) && !(e is DBNotFound)) ==> a == PopulateAction::Fail(read->Err_0),
{
    match read {
        Ok(_) => PopulateAction::Keep,
        Err(Error::DBNotFound { .. }) => PopulateAction::WriteDefault,
        Err(e) => PopulateAction::Fail(e),
    }
}

/// Stores `default_data` at `path` when nothing is stored there; leaves a
/// readable value in place; fails, without writing, on one that is not.
pub fn try_populate_storage<D: crate::database::DatabaseIO, O: serde_core::Serialize + serde_core::de::DeserializeOwned>(
    database: &mut D,
    default_data: &O,
    path: &str,
) -> (r: Result<()>)
    ensures
        crate::database::same_setup(old(database), final(database)),
        crate::database::initialize_outcome(old(database).stored(), final(database).stored(), path@, r),
{
    let ghost before = database.stored();
    let ghost d0 = *database;
    let read = database.try_read_storage::<O>(path);
    match populate_step(read) {
        PopulateAction::Keep => Ok(()),
        PopulateAction::WriteDefault => {
            let ghost mid = *database;
            let w = database.try_write_storage(default_data, path);
            proof {
                d0.lemma_keeps_setup_transitive(&mid, database);
                if w is Err {
                    assert(crate::database::changed_at_most(before, database.stored(), path@));
                } else {
                    assert(database.stored().contains_key(path@));
                }
            }
            w
        },
        PopulateAction::Fail(e) => Err(e),
    }
}

} // verus!
