//! Transient-file rules: how downloaded files are named, and which entries
//! of the shared temp directory an age-based cleanup pass may delete. The
//! filesystem work itself happens outside this crate; cleanup here decides,
//! over a plain listing, exactly which entries go.

use vstd::prelude::*;

use crate::text::{i64_to_dec, int_dec, starts_with_seq, str_starts_with};

verus! {

/// Seconds a transient file may age before a cleanup pass deletes it.
pub const TEMP_FILE_MAX_AGE_SECS: u64 = 3600;

/// The fixed prefix marking files this library created in the shared temp
/// directory; cleanup touches only names carrying it.
pub open spec fn spec_temp_prefix() -> Seq<char> {
    "weibo_reupload_"@
}

/// The name of the transient file stamped with Unix time `ts`: the fixed
/// prefix, the decimal timestamp, and a `.jpg` extension.
pub open spec fn spec_temp_file_name(ts: int) -> Seq<char> {
    spec_temp_prefix() + int_dec(ts) + ".jpg"@
}

/// The fixed transient-file prefix.
pub fn temp_file_prefix() -> (r: &'static str)
    ensures
        r@ == spec_temp_prefix(),
{
    "weibo_reupload_"
}

/// The transient-file name for the given Unix timestamp.
pub fn temp_file_name(timestamp: i64) -> (r: String)
    ensures
        r@ == spec_temp_file_name(timestamp as int),
{
    let mut s = temp_file_prefix().to_owned();
    let digits = i64_to_dec(timestamp);
    s.append(digits.as_str());
    s.append(".jpg");
    proof {
        assert(s@ =~= spec_temp_file_name(timestamp as int));
    }
    s
}

/// Relies on chrono's `Local::now` and `DateTime::timestamp`: the wall clock
/// at the moment of the call, as whole seconds since the Unix epoch. Nothing
/// can be promised of the value itself.
#[verifier::external_body]
fn now_unix_timestamp() -> i64 {
    chrono::Local::now().timestamp()
}

/// A transient-file name stamped with the current wall-clock second.
pub fn fresh_temp_file_name() -> (r: String)
    ensures
        exists|ts: int| r@ == spec_temp_file_name(ts),
{
    let ts = now_unix_timestamp();
    let r = temp_file_name(ts);
    proof {
        assert(r@ == spec_temp_file_name(ts as int));
    }
    r
}

/// One directory entry as the cleanup pass sees it: the file's name and its
/// age in seconds (`None` when no modification time could be read, or when
/// the file is newer than the clock).
pub struct DirEntryInfo {
    pub name: String,
    pub age_secs: Option<u64>,
}

/// An entry is removed exactly when its name carries the transient-file
/// prefix and its age is known and strictly beyond `max_age_secs`.
pub open spec fn should_remove_spec(
    name: Seq<char>,
    age_secs: Option<u64>,
    max_age_secs: u64,
) -> bool {
    &&& starts_with_seq(name, spec_temp_prefix())
    &&& age_secs is Some
    &&& age_secs->0 > max_age_secs
}

/// Decide whether the cleanup pass deletes one directory entry.
pub fn should_remove(entry: &DirEntryInfo, max_age_secs: u64) -> (r: bool)
    ensures
        r == should_remove_spec(entry.name@, entry.age_secs, max_age_secs),
{
    if !str_starts_with(entry.name.as_str(), temp_file_prefix()) {
        return false;
    }
    match entry.age_secs {
        Some(age) => age > max_age_secs,
        None => false,
    }
}

/// For a whole directory listing, decide entry by entry whether the cleanup
/// pass deletes it.
pub fn select_expired(entries: &Vec<DirEntryInfo>, max_age_secs: u64) -> (r: Vec<bool>)
    ensures
        r@.len() == entries@.len(),
        forall|i: int|
            0 <= i < entries@.len() ==> r@[i] == should_remove_spec(
                entries@[i].name@,
                entries@[i].age_secs,
                max_age_secs,
            ),
{
    let mut r: Vec<bool> = Vec::new();
    let n = entries.len();
    let mut i: usize = 0;
    while i < n
        invariant
            n == entries@.len(),
            0 <= i <= n,
            r@.len() == i,
            forall|k: int|
                0 <= k < i ==> r@[k] == should_remove_spec(
                    entries@[k].name@,
                    entries@[k].age_secs,
                    max_age_secs,
                ),
        decreases n - i,
    {
        let d = should_remove(&entries[i], max_age_secs);
        r.push(d);
        i = i + 1;
    }
    r
}

/// Law: the cleanup pass removes an entry only when it carries the fixed
/// prefix and is strictly older than the retention window; every entry with
/// another prefix, a young enough modification time, or no readable one at
/// all, is left untouched.
pub proof fn lemma_cleanup_scope(name: Seq<char>, age_secs: Option<u64>, max_age_secs: u64)
    ensures
        should_remove_spec(name, age_secs, max_age_secs) ==> starts_with_seq(
            name,
            spec_temp_prefix(),
        ) && age_secs is Some && age_secs->0 > max_age_secs,
        !starts_with_seq(name, spec_temp_prefix()) ==> !should_remove_spec(
            name,
            age_secs,
            max_age_secs,
        ),
        age_secs is None ==> !should_remove_spec(name, age_secs, max_age_secs),
        (age_secs is Some && age_secs->0 <= max_age_secs) ==> !should_remove_spec(
            name,
            age_secs,
            max_age_secs,
        ),
{
}

/// Law: every freshly generated transient-file name carries the fixed
/// prefix, so a later cleanup pass can recognise it.
pub proof fn lemma_temp_name_has_prefix(ts: int)
    ensures
        starts_with_seq(spec_temp_file_name(ts), spec_temp_prefix()),
{
    assert(spec_temp_file_name(ts).subrange(0, spec_temp_prefix().len() as int)
        =~= spec_temp_prefix());
}

} // verus!
