//! Names of backup copies: the copied path, the time, and a reason.
use vstd::prelude::*;
use vstd::string::StringExecFns;

verus! {

/// The decimal digit for `d < 10`.
pub open spec fn digit_char(d: nat) -> char {
    seq!['0', '1', '2', '3', '4', '5', '6', '7', '8', '9'][d as int]
}

/// The decimal digits of `n`, most significant first, without leading zeros.
pub open spec fn digits_of(n: nat) -> Seq<char>
    decreases n,
{
    if n < 10 {
        seq![digit_char(n)]
    } else {
        digits_of(n / 10) + seq![digit_char(n % 10)]
    }
}

/// `n` written in decimal, with a leading `-` when negative.
pub open spec fn decimal_of(n: int) -> Seq<char> {
    if n < 0 {
        seq!['-'] + digits_of((-n) as nat)
    } else {
        digits_of(n as nat)
    }
}

/// The backup of `path` taken at `seconds` past the Unix epoch, for `reason`:
/// `<path>.<reason>-<seconds>.bak`.
pub open spec fn backup_path_of(path: Seq<char>, seconds: u64, reason: Seq<char>) -> Seq<char> {
    path + seq!['.'] + reason + seq!['-'] + decimal_of(seconds as int) + seq!['.', 'b', 'a', 'k']
}

/// Relies on `std::time::SystemTime::now().duration_since(UNIX_EPOCH)`: the
/// whole seconds since the Unix epoch by the system clock, or `None` when the
/// clock reads earlier than the epoch.
#[verifier::external_body]
fn unix_seconds_now() -> (r: Option<u64>) {
    std::time::SystemTime::now().duration_since(std::time::UNIX_EPOCH).ok().map(|d| d.as_secs())
}

/// Relies on `u64`'s `to_string`: its decimal digits.
#[verifier::external_body]
fn decimal_string(n: u64) -> (r: String)
    ensures
        r@ == decimal_of(n as int),
{
    n.to_string()
}

/// A fresh backup path for `path`, stamped with the current time; `None`
/// when the clock reads earlier than the Unix epoch.
pub fn backup_path(path: &str, reason: &str) -> (r: Option<String>)
    ensures
        r matches Some(p) ==> exists|t: u64| p@ == backup_path_of(path@, t, reason@),
{
    let seconds = match unix_seconds_now() {
        Some(s) => s,
        None => return None,
    };
    let stamp = decimal_string(seconds);
    let mut p = String::from_str(path);
    p.append(".");
    p.append(reason);
    p.append("-");
    p.append(stamp.as_str());
    p.append(".bak");
    proof {
        reveal_strlit(".");
        reveal_strlit("-");
        reveal_strlit(".bak");
        assert(p@ == backup_path_of(path@, seconds, reason@));
    }
    Some(p)
}

/// A backup path is never the path it copies.
pub proof fn lemma_backup_path_differs(path: Seq<char>, seconds: u64, reason: Seq<char>)
    ensures
        backup_path_of(path, seconds, reason) != path,
{
    assert(backup_path_of(path, seconds, reason).len() > path.len());
}

} // verus!
