//! Text that the bridge writes itself: decimal numbers, the debug form of a
//! handle, and the placeholder that stands in for bytes that are not text.

use vstd::prelude::*;
use vstd::string::StringExecFns;
use vstd::utf8::{decode_utf8, valid_utf8};
use std::string::FromUtf8Error;

verus! {

/// The character that writes the decimal digit `d`.
pub open spec fn digit_char(d: nat) -> char {
    if d == 0 {
        '0'
    } else if d == 1 {
        '1'
    } else if d == 2 {
        '2'
    } else if d == 3 {
        '3'
    } else if d == 4 {
        '4'
    } else if d == 5 {
        '5'
    } else if d == 6 {
        '6'
    } else if d == 7 {
        '7'
    } else if d == 8 {
        '8'
    } else {
        '9'
    }
}

/// The decimal numeral of `n`: most significant digit first, no leading zero
/// except for zero itself.
pub open spec fn decimal_text(n: nat) -> Seq<char>
    decreases n,
{
    if n < 10 {
        seq![digit_char(n)]
    } else {
        decimal_text(n / 10).push(digit_char(n % 10))
    }
}

/// The debug form of a handle: its kind, then its token in round brackets.
pub open spec fn tagged_text(kind: Seq<char>, token: nat) -> Seq<char> {
    kind + seq!['('] + decimal_text(token) + seq![')']
}

/// What is rendered in place of bytes that are not well-formed UTF-8:
/// the debug form of the handle that was asked about, and why decoding failed.
pub open spec fn placeholder_text(subject: Seq<char>, reason: Seq<char>) -> Seq<char> {
    "<failed to decode unicode for "@ + subject + ": "@ + reason + ">"@
}

/// How a run of bytes is rendered for a handle whose debug form is `subject`:
/// well-formed UTF-8 as the text it encodes, anything else as a placeholder
/// that names the handle and gives some reason.
pub open spec fn renders_as(bytes: Seq<u8>, subject: Seq<char>, out: Seq<char>) -> bool {
    if valid_utf8(bytes) {
        out == decode_utf8(bytes)
    } else {
        exists|reason: Seq<char>| out == #[trigger] placeholder_text(subject, reason)
    }
}

/// `part` occurs in `text` as a contiguous run.
pub open spec fn contains_run(text: Seq<char>, part: Seq<char>) -> bool {
    exists|at: int|
        0 <= at && at + part.len() <= text.len() && #[trigger] text.subrange(
            at,
            at + part.len(),
        ) == part
}

fn digit(d: u64) -> (s: &'static str)
    requires
        d < 10,
    ensures
        s@ == seq![digit_char(d as nat)],
{
    proof {
        reveal_strlit("0");
        reveal_strlit("1");
        reveal_strlit("2");
        reveal_strlit("3");
        reveal_strlit("4");
        reveal_strlit("5");
        reveal_strlit("6");
        reveal_strlit("7");
        reveal_strlit("8");
        reveal_strlit("9");
    }
    let s: &'static str = if d == 0 {
        "0"
    } else if d == 1 {
        "1"
    } else if d == 2 {
        "2"
    } else if d == 3 {
        "3"
    } else if d == 4 {
        "4"
    } else if d == 5 {
        "5"
    } else if d == 6 {
        "6"
    } else if d == 7 {
        "7"
    } else if d == 8 {
        "8"
    } else {
        "9"
    };
    s
}

/// Writes `n` in decimal.
pub fn decimal(n: u64) -> (s: String)
    ensures
        s@ == decimal_text(n as nat),
    decreases n,
{
    if n < 10 {
        String::from_str(digit(n))
    } else {
        let mut s: String = decimal(n / 10);
        s.append(digit(n % 10));
        s
    }
}

/// Writes the debug form of a handle of the given kind.
pub fn tagged(kind: &str, token: u64) -> (s: String)
    ensures
        s@ == tagged_text(kind@, token as nat),
{
    proof {
        reveal_strlit("(");
        reveal_strlit(")");
    }
    let mut s: String = String::from_str(kind);
    s.append("(");
    let number: String = decimal(token);
    s.append(number.as_str());
    s.append(")");
    s
}

/// Writes the placeholder for a rendering that could not be decoded.
pub fn placeholder(subject: &str, reason: &str) -> (s: String)
    ensures
        s@ == placeholder_text(subject@, reason@),
{
    let mut s: String = String::from_str("<failed to decode unicode for ");
    s.append(subject);
    s.append(": ");
    s.append(reason);
    s.append(">");
    s
}

/// The error of `String::from_utf8`. Nothing is read from it but its message.
#[verifier::external_type_specification]
#[verifier::external_body]
pub struct ExFromUtf8Error(FromUtf8Error);

/// `String::from_utf8` checks that the bytes are well-formed UTF-8 and, if
/// they are, makes a string of them: it succeeds on well-formed bytes and on
/// no others, and the string then reads as the characters that they encode.
pub assume_specification[ String::from_utf8 ](vec: Vec<u8>) -> (r: Result<String, FromUtf8Error>)
    ensures
        r is Ok <==> valid_utf8(vec@),
        r matches Ok(s) ==> s@ == decode_utf8(vec@),
;

/// Settles what is rendered once decoding has been tried: the decoded text
/// as it is, or the placeholder for `subject` with the reason of the failure.
pub fn text_or_placeholder(decoded: Result<String, String>, subject: &str) -> (out: String)
    ensures
        decoded matches Ok(text) ==> out@ == text@,
        decoded matches Err(reason) ==> out@ == placeholder_text(subject@, reason@),
{
    match decoded {
        Ok(text) => text,
        Err(reason) => placeholder(subject, reason.as_str()),
    }
}

/// Renders bytes that are meant as UTF-8 text. Bytes that are not text never
/// make this fail: they give the placeholder for `subject`, with the decoder's
/// own account of what is wrong with them.
pub fn decode_or_placeholder(bytes: Vec<u8>, subject: &str) -> (out: String)
    ensures
        renders_as(bytes@, subject@, out@),
{
    let decoded: Result<String, String> = match String::from_utf8(bytes) {
        Ok(text) => Ok(text),
        Err(error) => Err(error.to_string()),
    };
    text_or_placeholder(decoded, subject)
}

/// The placeholder always shows the handle that was asked about: its debug
/// form occurs in it unbroken, whatever the reason is.
pub proof fn lemma_placeholder_shows_subject(subject: Seq<char>, reason: Seq<char>)
    ensures
        contains_run(placeholder_text(subject, reason), subject),
{
    let head = "<failed to decode unicode for "@;
    let text = placeholder_text(subject, reason);
    let at = head.len() as int;
    assert(text.subrange(at, at + subject.len()) =~= subject);
}

/// Bytes that are not text are rendered so that the handle can still be told:
/// whatever they are rendered as holds the handle's debug form unbroken.
pub proof fn lemma_undecodable_shows_subject(bytes: Seq<u8>, subject: Seq<char>, out: Seq<char>)
    requires
        !valid_utf8(bytes),
        renders_as(bytes, subject, out),
    ensures
        contains_run(out, subject),
{
    let reason = choose|reason: Seq<char>| out == #[trigger] placeholder_text(subject, reason);
    lemma_placeholder_shows_subject(subject, reason);
}

} // verus!
