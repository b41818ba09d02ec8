use crate::clock::{ORDINARY_SECS_MAX, local_stamp};
use crate::naming::{log_file_name_spec, log_suffix};
use crate::stamp::{Stamp, parse_stamp_spec, stamp_before, parse_stamp_prefix};
use crate::naming::lemma_file_name_stamp;
use vstd::prelude::*;
use vstd::string::StrSliceExecFns;

verus! {

/// Seconds in an hour.
pub const SECS_PER_HOUR: i64 = 3600;

/// The name ends with the log-file extension.
pub open spec fn is_log_name(name: Seq<char>) -> bool {
    name.len() >= 6 && name.subrange(name.len() - 6, name.len() as int) == log_suffix()
}

/// A log file is expired when its name carries a stamp strictly before the
/// cutoff. A name without a readable stamp is never expired. Stamps are local
/// wall-clock times: in the hour that repeats when daylight saving ends, a file
/// may be judged up to an hour earlier or later than by its instant.
pub open spec fn expired_spec(name: Seq<char>, cutoff: Stamp) -> bool {
    is_log_name(name) && (parse_stamp_spec(name) matches Some(s) && stamp_before(s, cutoff))
}

/// The cutoff time in Unix seconds, where retention is on and it fits in `i64`.
pub open spec fn cutoff_secs_spec(now_secs: int, retention_hours: int) -> Option<int> {
    if retention_hours <= 0 || now_secs - retention_hours * 3600 < i64::MIN {
        None
    } else {
        Some(now_secs - retention_hours * 3600)
    }
}

/// Whether a file name has the log-file extension.
pub fn has_log_suffix(name: &str) -> (r: bool)
    ensures
        r == is_log_name(name@),
{
    let n = name.unicode_len();
    if n < 6 {
        return false;
    }
    let r = name.get_char(n - 6) == '.' && name.get_char(n - 5) == 'j' && name.get_char(n - 4)
        == 's' && name.get_char(n - 3) == 'o' && name.get_char(n - 2) == 'n' && name.get_char(n - 1)
        == 'l';
    assert(r == (name@.subrange(n - 6, n as int) =~= log_suffix()));
    r
}

/// Whether the sweeper deletes the file of this name, given the cutoff stamp.
pub fn is_expired(name: &str, cutoff: &Stamp) -> (r: bool)
    ensures
        r == expired_spec(name@, *cutoff),
{
    if !has_log_suffix(name) {
        return false;
    }
    match parse_stamp_prefix(name) {
        Some(s) => s.is_before(cutoff),
        None => false,
    }
}

/// For each name, whether the sweeper deletes that file.
pub fn expired_flags(names: &Vec<String>, cutoff: &Stamp) -> (r: Vec<bool>)
    ensures
        r@.len() == names@.len(),
        forall|i: int| 0 <= i < names@.len() ==> r@[i] == expired_spec(names@[i]@, *cutoff),
{
    let mut r: Vec<bool> = Vec::new();
    let mut i: usize = 0;
    while i < names.len()
        invariant
            i <= names@.len(),
            r@.len() == i,
            forall|j: int| 0 <= j < i ==> r@[j] == expired_spec(names@[j]@, *cutoff),
        decreases names@.len() - i,
    {
        r.push(is_expired(names[i].as_str(), cutoff));
        i = i + 1;
    }
    r
}

/// The Unix time `retention_hours` before `now_secs`; `None` where retention is
/// off (`retention_hours <= 0`) or the time falls below `i64` seconds.
pub fn cutoff_secs(now_secs: i64, retention_hours: i64) -> (r: Option<i64>)
    ensures
        r is None <==> cutoff_secs_spec(now_secs as int, retention_hours as int) is None,
        r matches Some(t) ==> cutoff_secs_spec(now_secs as int, retention_hours as int) == Some(
            t as int,
        ),
{
    if retention_hours <= 0 {
        return None;
    }
    let hours = retention_hours as i128;
    assert(hours * 3600 <= 0x7fff_ffff_ffff_ffff * 3600) by (nonlinear_arith)
        requires
            0 < hours <= 0x7fff_ffff_ffff_ffff,
    ;
    let at = now_secs as i128 - hours * SECS_PER_HOUR as i128;
    if at < i64::MIN as i128 {
        None
    } else {
        Some(at as i64)
    }
}

/// The local stamp `retention_hours` before `now_secs` (a Unix time in seconds);
/// files stamped before it are expired. `None` where `cutoff_secs` gives none or
/// where the local zone gives no single four-digit-year stamp for that time.
pub fn retention_cutoff(now_secs: i64, retention_hours: i64) -> (r: Option<Stamp>)
    ensures
        cutoff_secs_spec(now_secs as int, retention_hours as int) is None ==> r is None,
        cutoff_secs_spec(now_secs as int, retention_hours as int) matches Some(t) && 0 <= t
            <= ORDINARY_SECS_MAX ==> r is Some,
        r matches Some(c) ==> c.wf(),
{
    match cutoff_secs(now_secs, retention_hours) {
        Some(at) => local_stamp(at),
        None => None,
    }
}

/// Retention decides by the stamp in the name alone: a log file is deleted
/// exactly when it was made before the cutoff, and a name whose stamp cannot be
/// read is never deleted.
pub proof fn lemma_retention(s: Stamp, topic: Seq<char>, index: int, cutoff: Stamp, other: Seq<char>)
    requires
        s.wf(),
        0 <= index < 100,
    ensures
        expired_spec(log_file_name_spec(s, topic, index), cutoff) == stamp_before(s, cutoff),
        parse_stamp_spec(other) is None ==> !expired_spec(other, cutoff),
{
    let name = log_file_name_spec(s, topic, index);
    lemma_file_name_stamp(s, topic, index);
    assert(name.subrange(name.len() - 6, name.len() as int) =~= log_suffix());
}

} // verus!
