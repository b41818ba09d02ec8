use crate::stamp::{Stamp, file_stamp_text, lemma_stamp_round_trip, parse_stamp_spec, push_two, two_digits};
use crate::clock::{ORDINARY_SECS_MAX, local_stamp};
use vstd::prelude::*;
use vstd::string::StrSliceExecFns;
use vstd::string::StringExecFns;

verus! {

/// A path separator on some platform: `/` or a backslash.
pub open spec fn is_separator(c: char) -> bool {
    c == '/' || c == '\\'
}

/// The characters replaced by an underscore: every path separator, or `/` only.
pub open spec fn replaced(c: char, all_separators: bool) -> bool {
    if all_separators {
        is_separator(c)
    } else {
        c == '/'
    }
}

/// The topic with the chosen characters replaced by an underscore.
pub open spec fn underscored_spec(topic: Seq<char>, all_separators: bool) -> Seq<char> {
    topic.map_values(|c: char| if replaced(c, all_separators) { '_' } else { c })
}

/// The topic with every path separator replaced by an underscore.
pub open spec fn sanitize_spec(topic: Seq<char>) -> Seq<char> {
    underscored_spec(topic, true)
}

/// The extension that every log file carries.
pub open spec fn log_suffix() -> Seq<char> {
    seq!['.', 'j', 's', 'o', 'n', 'l']
}

/// `<stamp>-<sanitized topic>-<NN>.jsonl`.
pub open spec fn log_file_name_spec(s: Stamp, topic: Seq<char>, index: int) -> Seq<char> {
    file_stamp_text(s) + seq!['-'] + sanitize_spec(topic) + seq!['-'] + two_digits(index)
        + log_suffix()
}

/// Replaces every path separator in a topic name with `_`, so that it can stand
/// in a file name.
pub fn sanitize_topic(topic: &str) -> (r: String)
    ensures
        r@ == sanitize_spec(topic@),
{
    underscored(topic, true)
}

fn underscored(topic: &str, all_separators: bool) -> (r: String)
    ensures
        r@ == underscored_spec(topic@, all_separators),
{
    let n = topic.unicode_len();
    let mut out = String::new();
    let mut i: usize = 0;
    while i < n
        invariant
            n == topic@.len(),
            i <= n,
            out@ == underscored_spec(topic@.subrange(0, i as int), all_separators),
        decreases n - i,
    {
        let c = topic.get_char(i);
        if c == '/' || (all_separators && c == '\\') {
            proof { reveal_strlit("_"); }
            out.append("_");
        } else {
            out.append(topic.substring_char(i, i + 1));
        }
        assert(topic@.subrange(0, i + 1) =~= topic@.subrange(0, i as int).push(c));
        assert(out@ =~= underscored_spec(topic@.subrange(0, i + 1), all_separators));
        i = i + 1;
    }
    assert(topic@.subrange(0, n as int) =~= topic@);
    out
}

/// The name of a log file: the creation stamp, the sanitized topic and the
/// two-digit rotation index.
pub fn log_file_name(stamp: &Stamp, topic: &str, index: usize) -> (r: String)
    requires
        stamp.wf(),
        index < 100,
    ensures
        r@ == log_file_name_spec(*stamp, topic@, index as int),
{
    let mut out = stamp.file_text();
    proof {
        reveal_strlit("-");
        reveal_strlit(".jsonl");
    }
    out.append("-");
    let safe = sanitize_topic(topic);
    out.append(safe.as_str());
    out.append("-");
    push_two(&mut out, index as u32);
    out.append(".jsonl");
    assert(out@ =~= log_file_name_spec(*stamp, topic@, index as int));
    out
}

/// The name of a new log file stamped with the local time of `now_secs` (a Unix
/// time in seconds); `None` where that time has no local four-digit-year stamp,
/// which cannot happen from 1970 up to `ORDINARY_SECS_MAX`.
pub fn fresh_log_file_name(topic: &str, index: usize, now_secs: i64) -> (r: Option<String>)
    requires
        index < 100,
    ensures
        r matches Some(name) ==> exists|s: Stamp|
            s.wf() && name@ == log_file_name_spec(s, topic@, index as int),
        0 <= now_secs <= ORDINARY_SECS_MAX ==> r is Some,
{
    match local_stamp(now_secs) {
        Some(s) => Some(log_file_name(&s, topic, index)),
        None => None,
    }
}

/// The broker client identifier used for a topic's connection: the topic with
/// each `/` made `_`, after `mqtt_subscriber_`.
pub fn client_id_for(topic: &str) -> (r: String)
    ensures
        r@ == seq!['m', 'q', 't', 't', '_', 's', 'u', 'b', 's', 'c', 'r', 'i', 'b', 'e', 'r', '_']
            + underscored_spec(topic@, false),
{
    proof { reveal_strlit("mqtt_subscriber_"); }
    let mut out = String::from_str("mqtt_subscriber_");
    let safe = underscored(topic, false);
    out.append(safe.as_str());
    out
}

/// Every log file name reads back as the stamp it was made with.
pub proof fn lemma_file_name_stamp(s: Stamp, topic: Seq<char>, index: int)
    requires
        s.wf(),
        0 <= index < 100,
    ensures
        parse_stamp_spec(log_file_name_spec(s, topic, index)) == Some(s),
{
    let rest = seq!['-'] + sanitize_spec(topic) + seq!['-'] + two_digits(index) + log_suffix();
    lemma_stamp_round_trip(s, rest);
    assert(log_file_name_spec(s, topic, index) =~= file_stamp_text(s) + rest);
}

} // verus!
