use crate::clock::{ORDINARY_SECS_MAX, local_stamp};
use crate::stamp::{Stamp, display_stamp_text};
use vstd::prelude::*;
use vstd::string::StringExecFns;

verus! {

/// Below this magnitude a timestamp counts in seconds, from it on in milliseconds.
pub const MILLIS_THRESHOLD: i64 = 100_000_000_000;

/// The text that `String::from_utf8_lossy` makes of some bytes.
pub uninterp spec fn lossy_utf8(bytes: Seq<u8>) -> Seq<char>;

/// Whether serde_json reads a text as one JSON value.
pub uninterp spec fn json_accepts(text: Seq<char>) -> bool;

/// The compact JSON that serde_json writes back for the value it reads from a
/// text.
pub uninterp spec fn json_written_back(text: Seq<char>) -> Seq<char>;

/// The number that serde_json finds under `key` in the value it reads from a
/// text, as `Value::as_f64` gives it and truncated toward zero into `i64`
/// (saturating); `None` where there is no such numeric member.
pub uninterp spec fn json_number_member(text: Seq<char>, key: Seq<char>) -> Option<i64>;

/// Relies on `String::from_utf8_lossy`: the bytes decoded as UTF-8, each invalid
/// sequence replaced; the text depends on the bytes alone.
#[verifier::external_body]
fn lossy_text(bytes: &[u8]) -> (r: String)
    ensures
        r@ == lossy_utf8(bytes@),
{
    String::from_utf8_lossy(bytes).into_owned()
}

/// Relies on `serde_json::from_str` into a `Value`, on `Display` for `Value`, and
/// on `Value::get` with `Value::as_f64`: whether the text is JSON, the value
/// written back as compact JSON, and the numeric member `key`. Each depends on
/// the text (and key) alone.
#[verifier::external_body]
fn read_json(text: &str, key: &str) -> (r: Option<(String, Option<i64>)>)
    ensures
        r is Some <==> json_accepts(text@),
        r matches Some(p) ==> p.0@ == json_written_back(text@) && p.1 == json_number_member(
            text@,
            key@,
        ),
{
    serde_json::from_str::<serde_json::Value>(text).ok().map(
        |v| (v.to_string(), v.get(key).and_then(serde_json::Value::as_f64).map(|n| n as i64)),
    )
}

/// A timestamp read as seconds: below `10^11` in magnitude it already is, from
/// there on it is milliseconds and is divided by 1000, rounding toward zero.
pub open spec fn timestamp_secs_spec(ts: int) -> int {
    if -MILLIS_THRESHOLD < ts < MILLIS_THRESHOLD {
        ts
    } else if ts >= 0 {
        ts / 1000
    } else {
        -((-ts) / 1000)
    }
}

/// The `ext` object: `{}` where the payload has no integer `timestamp`,
/// `{"timestamp":"<local time>"}` where it has one, with an empty string where
/// the time has no local four-digit-year form.
pub open spec fn ext_spec(local: Option<Option<Stamp>>) -> Seq<char> {
    match local {
        None => "{}"@,
        Some(None) => "{\"timestamp\":\"\"}"@,
        Some(Some(s)) => "{\"timestamp\":\""@ + display_stamp_text(s) + "\"}"@,
    }
}

/// The record written for a payload: `{"ext":<ext>,"raw":<raw>}`.
pub open spec fn record_spec(ext: Seq<char>, raw: Seq<char>) -> Seq<char> {
    "{\"ext\":"@ + ext + ",\"raw\":"@ + raw + "}"@
}

/// The `raw` member written where the payload is not JSON.
pub open spec fn parse_failure_raw() -> Seq<char> {
    "{\"message\":\"json parse failed\"}"@
}

/// Reads a payload timestamp as seconds.
pub fn timestamp_secs(ts: i64) -> (r: i64)
    ensures
        r == timestamp_secs_spec(ts as int),
{
    if -MILLIS_THRESHOLD < ts && ts < MILLIS_THRESHOLD {
        ts
    } else if ts >= 0 {
        ts / 1000
    } else {
        let mag = -(ts as i128);
        let q = mag / 1000;
        (-q) as i64
    }
}

/// The `ext` object for what was found of a payload timestamp.
pub fn ext_object(local: Option<Option<Stamp>>) -> (r: String)
    requires
        local matches Some(Some(s)) ==> s.wf(),
    ensures
        r@ == ext_spec(local),
{
    match local {
        None => String::from_str("{}"),
        Some(None) => String::from_str("{\"timestamp\":\"\"}"),
        Some(Some(s)) => {
            let mut out = String::from_str("{\"timestamp\":\"");
            let t = s.display_text();
            out.append(t.as_str());
            out.append("\"}");
            out
        },
    }
}

/// The record line for a payload that parsed as JSON: `raw` is the value
/// written back, `local` what was found of its timestamp.
pub fn parsed_record(raw: &str, local: Option<Option<Stamp>>) -> (r: String)
    requires
        local matches Some(Some(s)) ==> s.wf(),
    ensures
        r@ == record_spec(ext_spec(local), raw@),
{
    let ext = ext_object(local);
    let mut out = String::from_str("{\"ext\":");
    out.append(ext.as_str());
    out.append(",\"raw\":");
    out.append(raw);
    out.append("}");
    out
}

/// The record line for a payload that is not JSON.
pub fn failure_record() -> (r: String)
    ensures
        r@ == record_spec("{}"@, parse_failure_raw()),
{
    let mut out = String::from_str("{\"ext\":{},\"raw\":");
    out.append("{\"message\":\"json parse failed\"}");
    out.append("}");
    proof {
        reveal_strlit("{\"ext\":{},\"raw\":");
        reveal_strlit("{\"ext\":");
        reveal_strlit("{}");
        reveal_strlit(",\"raw\":");
        reveal_strlit("}");
    }
    assert(out@ =~= record_spec("{}"@, parse_failure_raw()));
    out
}

/// The key of the payload member that carries a timestamp.
pub open spec fn timestamp_key() -> Seq<char> {
    "timestamp"@
}

/// The line persisted for a received payload. A payload that is not JSON gives
/// the parse-failure record. One that is gives `{"ext":<ext>,"raw":<raw>}` with
/// `raw` the value written back; `ext` is `{}` exactly where the payload has no
/// numeric `timestamp`, and otherwise carries the local time of that timestamp
/// read as seconds, which is never empty for seconds from 0 up to
/// `ORDINARY_SECS_MAX`.
pub fn normalize_payload(payload: &[u8]) -> (r: String)
    ensures
        !json_accepts(lossy_utf8(payload@)) ==> r@ == record_spec("{}"@, parse_failure_raw()),
        json_accepts(lossy_utf8(payload@)) ==> exists|local: Option<Option<Stamp>>|
            r@ == record_spec(ext_spec(local), json_written_back(lossy_utf8(payload@))) && (
            local is None <==> json_number_member(lossy_utf8(payload@), timestamp_key()) is None)
                && (json_number_member(lossy_utf8(payload@), timestamp_key()) matches Some(ts) && 0
                <= timestamp_secs_spec(ts as int) <= ORDINARY_SECS_MAX ==> local matches Some(Some(_))),
{
    let text = lossy_text(payload);
    match read_json(text.as_str(), "timestamp") {
        None => failure_record(),
        Some((raw, member)) => {
            let local = match member {
                Some(ts) => Some(local_stamp(timestamp_secs(ts))),
                None => None,
            };
            let r = parsed_record(raw.as_str(), local);
            assert(r@ == record_spec(ext_spec(local), raw@));
            r
        },
    }
}

} // verus!
