//! The wire format of a telemetry message.
//!
//! A message body is text of fields separated by colons. The first field
//! is free (a name, say); the second is the receive rate and the third the
//! transmit rate, both decimal numbers in bytes per second. Bytes that are
//! not UTF-8 are replaced rather than rejected, NUL characters are dropped,
//! and white space around the message and around each rate is ignored.
//! A message with fewer than three fields is malformed.

use vstd::prelude::*;
use vstd::utf8::{decode_utf8, valid_utf8};
use crate::text::{
    chars_of, contents, leading_whitespace, lemma_leading_whitespace,
    lemma_split_at_first_separator, lemma_split_without_separator, lemma_trailing_whitespace,
    lemma_trim_after_trim_end, lemma_trim_end_stops, lemma_trim_start_stops, not_nul, split,
    split_chars, string_of, strip_nuls, trim, trim_chars, trim_end, trim_start, without_nuls,
};

verus! {

/// The character between two fields.
pub const FIELD_SEPARATOR: char = ':';

/// The text that `String::from_utf8_lossy` makes of `bytes`.
pub uninterp spec fn utf8_lossy(bytes: Seq<u8>) -> Seq<char>;

/// Decodes with `String::from_utf8_lossy`, which turns bytes into text and
/// puts U+FFFD in place of what is not UTF-8. Of bytes that are UTF-8 the
/// result is the text they encode; of others it is only named.
#[verifier::external_body]
fn decode_lossy(bytes: &[u8]) -> (text: String)
    ensures
        text@ == utf8_lossy(bytes@),
        valid_utf8(bytes@) ==> text@ == decode_utf8(bytes@),
{
    String::from_utf8_lossy(bytes).into_owned()
}

/// The two rate fields of a message, as text that a number parser can take.
#[derive(Clone, Debug, PartialEq, Eq)]
pub struct RateFields {
    pub receive: String,
    pub transmit: String,
}

/// A message with fewer than three fields: its text, NULs and surrounding
/// white space removed, for the log.
#[derive(Clone, Debug, PartialEq, Eq)]
pub struct MalformedPayload {
    pub text: String,
}

/// Message text without its NUL characters and the white space around it.
pub open spec fn cleaned(text: Seq<char>) -> Seq<char> {
    trim(without_nuls(text))
}

/// The fields of a message.
pub open spec fn fields(text: Seq<char>) -> Seq<Seq<char>> {
    split(cleaned(text), FIELD_SEPARATOR)
}

/// The receive and transmit fields of a message, trimmed; `None` if the
/// message has fewer than three fields.
pub open spec fn rate_fields(text: Seq<char>) -> Option<(Seq<char>, Seq<char>)> {
    let parts = fields(text);
    if parts.len() > 2 {
        Some((trim(parts[1]), trim(parts[2])))
    } else {
        None
    }
}

/// Text without a colon keeps none when its NULs are dropped.
proof fn lemma_without_nuls_keeps_no_separator(s: Seq<char>)
    requires
        !s.contains(FIELD_SEPARATOR),
    ensures
        !without_nuls(s).contains(FIELD_SEPARATOR),
{
    if without_nuls(s).contains(FIELD_SEPARATOR) {
        s.lemma_filter_contains_rev(not_nul(), FIELD_SEPARATOR);
    }
}

/// A message of three fields gives the second and the third as its rates:
/// for every `name`, `receive` and `transmit` without a colon, the message
/// `name:receive:transmit` has the rate fields `receive` and `transmit`,
/// each with its NULs dropped and the white space around it trimmed.
pub proof fn lemma_three_field_message(name: Seq<char>, receive: Seq<char>, transmit: Seq<char>)
    requires
        !name.contains(FIELD_SEPARATOR),
        !receive.contains(FIELD_SEPARATOR),
        !transmit.contains(FIELD_SEPARATOR),
    ensures
        rate_fields(name + seq![FIELD_SEPARATOR] + receive + seq![FIELD_SEPARATOR] + transmit)
            == Some((trim(without_nuls(receive)), trim(without_nuls(transmit)))),
{
    let colon = seq![FIELD_SEPARATOR];
    let text = name + colon + receive + colon + transmit;
    let n = without_nuls(name);
    let r = without_nuls(receive);
    let t = without_nuls(transmit);
    lemma_without_nuls_keeps_no_separator(name);
    lemma_without_nuls_keeps_no_separator(receive);
    lemma_without_nuls_keeps_no_separator(transmit);

    // Dropping NULs works field by field and keeps the colons.
    assert(without_nuls(colon) == colon) by {
        reveal(Seq::filter);
        assert(colon.drop_last() =~= Seq::<char>::empty());
        assert(colon.drop_last().filter(not_nul()) =~= Seq::<char>::empty());
        assert(Seq::<char>::empty().push(FIELD_SEPARATOR) =~= colon);
    }
    assert(without_nuls(text) == n + colon + r + colon + t) by {
        Seq::filter_distributes_over_add(name, colon, not_nul());
        Seq::filter_distributes_over_add(name + colon, receive, not_nul());
        Seq::filter_distributes_over_add(name + colon + receive, colon, not_nul());
        Seq::filter_distributes_over_add(name + colon + receive + colon, transmit, not_nul());
    }

    // Trimming the message stops at the first and at the last colon.
    let inner = colon + r + colon;
    let head = trim_start(n);
    let tail = trim_end(t);
    assert(n + colon + r + colon + t =~= n + (inner + t));
    assert((inner + t).first() == FIELD_SEPARATOR);
    lemma_trim_start_stops(n, inner + t);
    assert(head + (inner + t) =~= (head + inner) + t);
    assert((head + inner).last() == FIELD_SEPARATOR);
    lemma_trim_end_stops(head + inner, t);
    let message = cleaned(text);
    assert(message == head + inner + tail);

    // The trimmed ends still hold no colon.
    lemma_leading_whitespace(n);
    lemma_trailing_whitespace(t);
    assert forall|j: int| 0 <= j < head.len() implies head[j] != FIELD_SEPARATOR by {
        assert(head[j] == n[j + leading_whitespace(n)]);
        assert(n.contains(head[j]));
    }
    assert forall|j: int| 0 <= j < tail.len() implies tail[j] != FIELD_SEPARATOR by {
        assert(tail[j] == t[j]);
        assert(t.contains(tail[j]));
    }
    assert forall|j: int| 0 <= j < r.len() implies r[j] != FIELD_SEPARATOR by {
        assert(r.contains(r[j]));
    }

    // So the message splits into exactly the three fields.
    let first = head.len() as int;
    assert forall|j: int| 0 <= j < first implies message[j] != FIELD_SEPARATOR by {
        assert(message[j] == head[j]);
    }
    assert(message[first] == FIELD_SEPARATOR);
    lemma_split_at_first_separator(message, FIELD_SEPARATOR, first);
    assert(message.take(first) =~= head);
    let rest = message.skip(first + 1);
    assert(rest =~= r + colon + tail);
    let second = r.len() as int;
    assert forall|j: int| 0 <= j < second implies rest[j] != FIELD_SEPARATOR by {
        assert(rest[j] == r[j]);
    }
    assert(rest[second] == FIELD_SEPARATOR);
    lemma_split_at_first_separator(rest, FIELD_SEPARATOR, second);
    assert(rest.take(second) =~= r);
    assert(rest.skip(second + 1) =~= tail);
    lemma_split_without_separator(tail, FIELD_SEPARATOR);
    assert(fields(text) =~= seq![head, r, tail]);
    lemma_trim_after_trim_end(t);
}

/// Whether `outcome` is what reading the message `text` gives.
pub open spec fn is_reading_of(outcome: Result<RateFields, MalformedPayload>, text: Seq<char>) -> bool {
    match rate_fields(text) {
        Some((receive, transmit)) => outcome matches Ok(found) && found.receive@ == receive
            && found.transmit@ == transmit,
        None => outcome matches Err(malformed) && malformed.text@ == cleaned(text),
    }
}

/// Drops the NUL characters of decoded message text and trims the white
/// space around it.
pub fn clean_text(text: &str) -> (message: Vec<char>)
    ensures
        message@ == cleaned(text@),
{
    let chars = chars_of(text);
    let stripped = strip_nuls(&chars);
    trim_chars(&stripped)
}

/// Decodes a message body and cleans it, as it is shown in a log.
pub fn clean_payload(payload: &[u8]) -> (message: String)
    ensures
        message@ == cleaned(utf8_lossy(payload@)),
        valid_utf8(payload@) ==> message@ == cleaned(decode_utf8(payload@)),
{
    let text = decode_lossy(payload);
    let message = clean_text(text.as_str());
    string_of(&message)
}

/// Finds the rate fields in decoded message text.
pub fn read_text(text: &str) -> (outcome: Result<RateFields, MalformedPayload>)
    ensures
        is_reading_of(outcome, text@),
{
    let message = clean_text(text);
    let parts = split_chars(&message, FIELD_SEPARATOR);
    assert(contents(parts@).len() == parts@.len());
    if parts.len() > 2 {
        assert(contents(parts@)[1] == parts@[1]@);
        assert(contents(parts@)[2] == parts@[2]@);
        let receive = trim_chars(&parts[1]);
        let transmit = trim_chars(&parts[2]);
        Ok(RateFields { receive: string_of(&receive), transmit: string_of(&transmit) })
    } else {
        Err(MalformedPayload { text: string_of(&message) })
    }
}

/// Decodes a message body and finds its rate fields.
pub fn read_payload(payload: &[u8]) -> (outcome: Result<RateFields, MalformedPayload>)
    ensures
        is_reading_of(outcome, utf8_lossy(payload@)),
        valid_utf8(payload@) ==> is_reading_of(outcome, decode_utf8(payload@)),
{
    let text = decode_lossy(payload);
    read_text(text.as_str())
}

} // verus!
