//! What the library takes from outside crates and from std, each with the
//! contract that the rest of the library relies on.
use chrono::Datelike;
use vstd::prelude::*;

use crate::clock::Instant;
use crate::error::FileError;

verus! {

/// The mathematical value of the outcome of a raw read.
pub open spec fn outcome_view(out: &Result<Vec<u8>, FileError>) -> Result<Seq<u8>, FileError> {
    match out {
        Ok(b) => Ok(b@),
        Err(e) => Err(*e),
    }
}

/// The fingerprint of a read outcome.
pub uninterp spec fn outcome_hash(out: Result<Seq<u8>, FileError>) -> u128;

/// Relies on typst::utils::hash128: a 128-bit SipHash with fixed keys over
/// the value's `Hash`, so that equal outcomes give equal fingerprints.
#[verifier::external_body]
pub(crate) fn fingerprint(out: &Result<Vec<u8>, FileError>) -> (r: u128)
    ensures
        r == outcome_hash(outcome_view(out)),
{
    typst::utils::hash128(out)
}

/// The text that a byte string decodes to as UTF-8, if it is valid.
pub uninterp spec fn utf8_text(b: Seq<u8>) -> Option<Seq<char>>;

/// Relies on String::from_utf8: the text where the bytes are valid UTF-8,
/// an error otherwise.
#[verifier::external_body]
pub(crate) fn utf8_decode(b: Vec<u8>) -> (r: Option<String>)
    ensures
        match r {
            Some(s) => utf8_text(b@) == Some(s@),
            None => utf8_text(b@) is None,
        },
{
    String::from_utf8(b).ok()
}

/// The physical path of a virtual path under a root, if it stays inside it.
pub uninterp spec fn resolved_path(root: Seq<char>, vpath: Seq<char>) -> Option<Seq<char>>;

/// Relies on typst::syntax::VirtualPath::new and VirtualPath::resolve: the
/// root joined with the normalized virtual path, or None where `..` climbs
/// above the root.
#[verifier::external_body]
pub(crate) fn resolve_in(root: &str, vpath: &str) -> (r: Option<String>)
    ensures
        match r {
            Some(p) => resolved_path(root@, vpath@) == Some(p@),
            None => resolved_path(root@, vpath@) is None,
        },
{
    let path = typst::syntax::VirtualPath::new(vpath);
    path.resolve(std::path::Path::new(root)).map(|p| p.to_string_lossy().into_owned())
}

/// Relies on chrono::Local::now: the current instant and the local zone's
/// offset from UTC. Nothing is known of the values.
#[verifier::external_body]
pub(crate) fn clock_now() -> (r: Instant) {
    let now = chrono::Local::now();
    Instant { utc_secs: now.timestamp(), local_offset_secs: now.offset().local_minus_utc() }
}

/// The proleptic Gregorian (year, month, day) of a count of seconds since
/// 1970-01-01 00:00 UTC.
pub uninterp spec fn civil_of(secs: i64) -> Option<(i32, u32, u32)>;

/// Relies on chrono::DateTime::from_timestamp with Datelike::year, month and
/// day: None outside chrono's range; a month in 1..=12 and a day in 1..=31.
#[verifier::external_body]
pub(crate) fn civil_date(secs: i64) -> (r: Option<(i32, u32, u32)>)
    ensures
        r == civil_of(secs),
        r matches Some((y, m, d)) ==> 1 <= m <= 12 && 1 <= d <= 31,
{
    chrono::DateTime::from_timestamp(secs, 0).map(|t| (t.year(), t.month(), t.day()))
}

/// Whether (year, month, day) is a date that the compiler's calendar holds.
pub uninterp spec fn calendar_valid(year: i32, month: u8, day: u8) -> bool;

/// Relies on typst::foundations::Datetime::from_ymd: Some exactly for a
/// representable calendar date.
#[verifier::external_body]
pub(crate) fn ymd_valid(year: i32, month: u8, day: u8) -> (r: bool)
    ensures
        r == calendar_valid(year, month, day),
{
    typst::foundations::Datetime::from_ymd(year, month, day).is_some()
}

} // verus!
