//! JSON texts, as far as the bridge reads them: whether a text is a JSON
//! document, what a member of its top-level object says, and a text written
//! as a JSON string. Parsing and printing are the `json` crate's. The
//! contracts here name its results; of their contents they say two things
//! only: that a text written as a JSON string is a JSON document, and what
//! that string is for a text that needs no escapes.
//!
//! The parser counts the digits of a fraction in sixteen bits and does not
//! check the count. A text with a longer run of digits is therefore never
//! handed to it: such a text counts as no document.

use crate::text::to_chars;
use vstd::prelude::*;

verus! {

/// A parsed JSON value. Opaque here: what is known of one is what
/// `json_members` names.
#[verifier::external_type_specification]
#[verifier::external_body]
pub struct ExJsonValue(json::JsonValue);

/// The parser's error, under the longer of the two names that the `json`
/// crate has for it. Opaque here: it is only ever turned into an `Error` of
/// this library.
#[verifier::external_type_specification]
#[verifier::external_body]
#[allow(deprecated)]
pub struct ExParseError(json::JsonError);

/// The longest run of decimal digits in a text that is handed to the parser.
pub const DIGIT_RUN_LIMIT: usize = 32767;

/// What `json::parse` makes of `text`: `None` where it refuses the text, else
/// the members of the parsed value (see `json_members`). It has a meaning
/// for every text on which the parser returns.
pub uninterp spec fn json_document(text: Seq<char>) -> Option<Map<Seq<char>, Seq<char>>>;

/// The members of a parsed value: for an object, each key with its value
/// printed by the value's `Display`; for any other value, nothing.
pub uninterp spec fn json_members(value: json::JsonValue) -> Map<Seq<char>, Seq<char>>;

/// What `json::stringify` prints for the string `text`: a JSON string literal.
pub uninterp spec fn json_quoted(text: Seq<char>) -> Seq<char>;

/// Whether `c` is a decimal digit.
pub open spec fn is_digit(c: char) -> bool {
    0x30 <= c as u32 <= 0x39
}

/// The length of the run of decimal digits that ends `s`.
pub open spec fn digit_run(s: Seq<char>) -> nat
    decreases s.len(),
{
    if s.len() == 0 || !is_digit(s.last()) {
        0
    } else {
        digit_run(s.drop_last()) + 1
    }
}

/// Whether no run of decimal digits in `s` is longer than
/// `DIGIT_RUN_LIMIT`: at no place in `s` does a longer one end.
pub open spec fn digit_runs_fit(s: Seq<char>) -> bool {
    forall|n: int| 0 <= n <= s.len() ==> digit_run(#[trigger] s.take(n)) <= DIGIT_RUN_LIMIT
}

/// Whether `text` is a JSON document: its runs of digits fit, and the parser
/// accepts it.
pub open spec fn is_json(text: Seq<char>) -> bool {
    digit_runs_fit(text) && json_document(text) is Some
}

/// Whether `text` can stand in a JSON string as it is: it holds no quote, no
/// backslash and no control character.
pub open spec fn is_plain(text: Seq<char>) -> bool {
    forall|i: int|
        0 <= i < text.len() ==> (#[trigger] text[i]) != '"' && text[i] != '\\' && text[i] as u32
            >= 0x20
}

/// `text` between two quotes.
pub open spec fn in_quotes(text: Seq<char>) -> Seq<char> {
    seq!['"'] + text + seq!['"']
}

/// The text of member `key` of a document, if the document has it.
pub open spec fn member_of(members: Map<Seq<char>, Seq<char>>, key: Seq<char>) -> Option<
    Seq<char>,
> {
    if members.dom().contains(key) {
        Some(members[key])
    } else {
        None
    }
}

/// The text of member `key` of the JSON document `text`: `None` where `text`
/// is no document or its value has no such member.
pub open spec fn document_member(text: Seq<char>, key: Seq<char>) -> Option<Seq<char>> {
    if is_json(text) {
        member_of(json_document(text)->0, key)
    } else {
        None
    }
}

/// What a payload becomes before it crosses to the remote bus: itself where
/// it already is a JSON document, else a JSON string that holds it.
pub open spec fn normalized(data: Seq<char>) -> Seq<char> {
    if is_json(data) {
        data
    } else {
        json_quoted(data)
    }
}

/// Calls `json::parse`. Trusted: the outcome is the one named
/// `json_document`, an error standing for a refused text. The parser lowers
/// a sixteen-bit exponent by one for each digit of a fraction, unchecked, so
/// it is given no text with a run of more than `DIGIT_RUN_LIMIT` digits.
#[verifier::external_body]
#[allow(deprecated)]
pub(crate) fn parse(text: &str) -> (parsed: Result<json::JsonValue, json::JsonError>)
    requires
        digit_runs_fit(text@),
    ensures
        match parsed {
            Ok(value) => json_document(text@) == Some(json_members(value)),
            Err(_) => json_document(text@) is None,
        },
{
    json::parse(text)
}

/// Calls `JsonValue::has_key`. Trusted: it tells whether `key` is among the
/// value's members, which only an object has.
#[verifier::external_body]
pub(crate) fn has_key(value: &json::JsonValue, key: &str) -> (found: bool)
    ensures
        found == json_members(*value).dom().contains(key@),
{
    value.has_key(key)
}

/// Indexes the value by `key` and prints what is found there. Trusted: for
/// a key among the members the text is the one that `json_members` holds;
/// for any other key the index gives the null value, which prints as `null`.
#[verifier::external_body]
pub(crate) fn member_text(value: &json::JsonValue, key: &str) -> (text: String)
    ensures
        text@ == if json_members(*value).dom().contains(key@) {
            json_members(*value)[key@]
        } else {
            "null"@
        },
{
    value[key].to_string()
}

/// Calls `json::stringify` on a string. Trusted: the result is the one named
/// `json_quoted`; it is JSON, a text that `json::parse` accepts (whatever
/// digits it holds stand inside a string, where the parser counts none);
/// and for a text that holds nothing to escape it is the text between two
/// quotes.
#[verifier::external_body]
pub(crate) fn quote(text: String) -> (quoted: String)
    ensures
        quoted@ == json_quoted(text@),
        json_document(quoted@) is Some,
        is_plain(text@) ==> quoted@ == in_quotes(text@),
{
    json::stringify(text)
}

/// Reads member `key` of an already parsed value.
pub fn member(value: &json::JsonValue, key: &str) -> (out: Option<String>)
    ensures
        out.deep_view() == member_of(json_members(*value), key@),
{
    if has_key(value, key) {
        Some(member_text(value, key))
    } else {
        None
    }
}

/// Whether `c` is a decimal digit.
pub fn char_is_digit(c: char) -> (yes: bool)
    ensures
        yes == is_digit(c),
{
    let u: u32 = c as u32;
    0x30 <= u && u <= 0x39
}

/// Whether `text` can be handed to the parser: whether its runs of digits
/// fit.
pub fn check_digit_runs(text: &str) -> (fits: bool)
    ensures
        fits == digit_runs_fit(text@),
{
    let chars = to_chars(text);
    let n = chars.len();
    let mut run: usize = 0;
    let mut i: usize = 0;
    assert(text@.take(0) =~= Seq::<char>::empty());
    while i < n
        invariant
            chars@ == text@,
            n == chars.len(),
            i <= n,
            run == digit_run(text@.take(i as int)),
            run <= DIGIT_RUN_LIMIT,
            forall|k: int| 0 <= k <= i ==> digit_run(#[trigger] text@.take(k)) <= DIGIT_RUN_LIMIT,
        decreases n - i,
    {
        assert(text@.take(i + 1).drop_last() =~= text@.take(i as int));
        assert(text@.take(i + 1).last() == chars[i as int]);
        if char_is_digit(chars[i]) {
            if run == DIGIT_RUN_LIMIT {
                assert(digit_run(text@.take(i + 1)) == DIGIT_RUN_LIMIT + 1);
                return false;
            }
            run += 1;
        } else {
            run = 0;
        }
        i += 1;
    }
    true
}

/// Parses `text` and reads member `key` of it. A text that cannot be handed
/// to the parser has no members.
pub fn read_member(text: &str, key: &str) -> (out: Option<String>)
    ensures
        out.deep_view() == document_member(text@, key@),
{
    if !check_digit_runs(text) {
        return None;
    }
    match parse(text) {
        Ok(value) => member(&value, key),
        Err(_) => None,
    }
}

/// Whether `text` is a JSON document. A text that cannot be handed to the
/// parser is none.
pub fn is_document(text: &str) -> (yes: bool)
    ensures
        yes == is_json(text@),
{
    check_digit_runs(text) && parse(text).is_ok()
}

/// Keeps a payload that was found to be a JSON document, quotes any other:
/// a payload that holds nothing to escape is put between two quotes. Where
/// the finding was right, the result is a text that the parser accepts.
pub fn keep_or_quote(data: String, is_document: bool) -> (out: String)
    ensures
        out@ == if is_document {
            data@
        } else {
            json_quoted(data@)
        },
        !is_document && is_plain(data@) ==> out@ == in_quotes(data@),
        is_document == is_json(data@) ==> json_document(out@) is Some,
{
    if is_document {
        data
    } else {
        quote(data)
    }
}

/// Makes a payload safe to send as JSON: a document is kept, anything else
/// is quoted, a text with a run of digits too long for the parser too. The
/// result is a text that the parser accepts, and another pass leaves it as
/// it is wherever its runs of digits fit.
pub fn normalize(data: String) -> (out: String)
    ensures
        out@ == normalized(data@),
        json_document(out@) is Some,
        !is_json(data@) && is_plain(data@) ==> out@ == in_quotes(data@),
        digit_runs_fit(out@) ==> normalized(out@) == out@,
{
    let valid = is_document(data.as_str());
    keep_or_quote(data, valid)
}

} // verus!
