//! The wire grammar, as mathematics: what a sequence of bytes decodes to, from
//! which position, and how many bytes that takes.

use crate::client::data::DataView;
use crate::client::errors::ErrorView;
use vstd::prelude::*;
use vstd::utf8::{decode_utf8, valid_utf8};

verus! {

/// The byte that ends the text of a line.
pub const CR: u8 = 13;

/// The outcome of decoding one piece of the input: the piece or the error, and
/// the number of bytes that were consumed on the way, also where it failed.
pub struct Step<T> {
    pub value: Result<T, ErrorView>,
    pub used: nat,
}

/// A step that succeeded.
pub open spec fn done<T>(value: T, used: nat) -> Step<T> {
    Step { value: Ok(value), used }
}

/// A step that failed.
pub open spec fn failed<T>(error: ErrorView, used: nat) -> Step<T> {
    Step { value: Err(error), used }
}

/// The same outcome, reached after `n` more bytes.
pub open spec fn after<T>(n: nat, step: Step<T>) -> Step<T> {
    Step { value: step.value, used: n + step.used }
}

/// The input ended before the value did.
pub open spec fn truncated() -> ErrorView {
    ErrorView::IOError("failed to fill whole buffer"@)
}

/// A line or a payload is not UTF-8.
pub open spec fn not_text() -> ErrorView {
    ErrorView::UnknownError("invalid utf-8 sequence"@)
}

/// A line that should hold an integer holds none that fits 64 bits.
pub open spec fn not_integer() -> ErrorView {
    ErrorView::UnknownError("invalid integer"@)
}

/// A declared length or count is negative without being the null marker.
pub open spec fn bad_length() -> ErrorView {
    ErrorView::UnknownError("invalid length"@)
}

/// The value begins with a byte that announces no kind of value.
pub open spec fn unknown_tag(tag: u8) -> ErrorView {
    ErrorView::ServerError("invalid_server_data_type"@, tag)
}

/// The number of bytes from `pos` to the end of the input.
pub open spec fn left(s: Seq<u8>, pos: nat) -> nat {
    if pos <= s.len() {
        (s.len() - pos) as nat
    } else {
        0
    }
}

/// One byte.
pub open spec fn byte(s: Seq<u8>, pos: nat) -> Step<u8> {
    if pos < s.len() {
        done(s[pos as int], 1)
    } else {
        failed(truncated(), 0)
    }
}

/// The position of the first carriage return at or after `from`, or the end
/// of the input where there is none.
pub open spec fn line_end(s: Seq<u8>, from: nat) -> nat
    decreases left(s, from),
{
    if from >= s.len() {
        from
    } else if s[from as int] == CR {
        from
    } else {
        line_end(s, from + 1)
    }
}

/// A line: the bytes before the first carriage return. The carriage return
/// and the one byte after it, whatever it is, are consumed with it.
pub open spec fn line(s: Seq<u8>, pos: nat) -> Step<Seq<u8>> {
    let stop = line_end(s, pos);
    if pos <= stop && stop + 1 < s.len() {
        done(s.subrange(pos as int, stop as int), (stop + 2 - pos) as nat)
    } else {
        failed(truncated(), left(s, pos))
    }
}

/// The decimal digits.
pub open spec fn is_digit(c: char) -> bool {
    '0' <= c <= '9'
}

/// Whether `s` holds decimal digits and nothing else.
pub open spec fn all_digits(s: Seq<char>) -> bool {
    forall|i: int| 0 <= i < s.len() ==> is_digit(#[trigger] s[i])
}

/// The number that a sequence of decimal digits writes.
pub open spec fn digits_value(s: Seq<char>) -> int
    decreases s.len(),
{
    if s.len() == 0 {
        0
    } else {
        digits_value(s.drop_last()) * 10 + (s.last() as int - 48)
    }
}

/// The integer that `s` writes: an optional sign, then one decimal digit or
/// more, and a value that fits 64 bits.
pub open spec fn signed_value(s: Seq<char>) -> Option<int> {
    let signed = s.len() > 0 && (s[0] == '-' || s[0] == '+');
    let digits = if signed {
        s.skip(1)
    } else {
        s
    };
    let magnitude = digits_value(digits);
    let value = if s.len() > 0 && s[0] == '-' {
        -magnitude
    } else {
        magnitude
    };
    if digits.len() > 0 && all_digits(digits) && i64::MIN <= value <= i64::MAX {
        Some(value)
    } else {
        None
    }
}

/// The integer held by the text of a line: the text is UTF-8, and all of it
/// writes an integer.
pub open spec fn integer_of(text: Seq<u8>) -> Result<int, ErrorView> {
    if !valid_utf8(text) {
        Err(not_text())
    } else {
        match signed_value(decode_utf8(text)) {
            Some(value) => Ok(value),
            None => Err(not_integer()),
        }
    }
}

/// The text held by a line or a payload.
pub open spec fn text_of(bytes: Seq<u8>) -> Result<Seq<char>, ErrorView> {
    if valid_utf8(bytes) {
        Ok(decode_utf8(bytes))
    } else {
        Err(not_text())
    }
}

/// What follows the tag of an error line. It never yields a value: the
/// server's text comes back as an error.
pub open spec fn error_line(s: Seq<u8>, pos: nat) -> Step<DataView> {
    let l = line(s, pos);
    match l.value {
        Err(e) => failed(e, l.used),
        Ok(bytes) => match text_of(bytes) {
            Ok(text) => failed(ErrorView::DataError(text), l.used),
            Err(e) => failed(e, l.used),
        },
    }
}

/// What follows the tag of a simple string.
pub open spec fn simple_string(s: Seq<u8>, pos: nat) -> Step<DataView> {
    let l = line(s, pos);
    match l.value {
        Err(e) => failed(e, l.used),
        Ok(bytes) => match text_of(bytes) {
            Ok(text) => done(DataView::String(text), l.used),
            Err(e) => failed(e, l.used),
        },
    }
}

/// An integer line, as a number.
pub open spec fn number(s: Seq<u8>, pos: nat) -> Step<int> {
    let l = line(s, pos);
    match l.value {
        Err(e) => failed(e, l.used),
        Ok(bytes) => match integer_of(bytes) {
            Ok(value) => done(value, l.used),
            Err(e) => failed(e, l.used),
        },
    }
}

/// What follows the tag of an integer.
pub open spec fn integer(s: Seq<u8>, pos: nat) -> Step<DataView> {
    let n = number(s, pos);
    match n.value {
        Err(e) => failed(e, n.used),
        Ok(value) => done(DataView::Integer(value), n.used),
    }
}

/// The payload of a bulk string of `length` bytes: the bytes, then two more
/// that are consumed whatever they hold.
pub open spec fn payload(s: Seq<u8>, pos: nat, length: int) -> Step<DataView> {
    if 0 <= length && pos + length + 2 <= s.len() {
        match text_of(s.subrange(pos as int, pos + length)) {
            Ok(text) => done(DataView::String(text), (length + 2) as nat),
            Err(e) => failed(e, (length + 2) as nat),
        }
    } else {
        failed(truncated(), left(s, pos))
    }
}

/// What follows the tag of a bulk string: its length on a line, then its
/// payload. The length -1 stands for the null value.
pub open spec fn bulk_string(s: Seq<u8>, pos: nat) -> Step<DataView> {
    let n = number(s, pos);
    match n.value {
        Err(e) => failed(e, n.used),
        Ok(length) => if length == -1 {
            done(DataView::Null, n.used)
        } else if length < 0 {
            failed(bad_length(), n.used)
        } else {
            after(n.used, payload(s, pos + n.used, length))
        },
    }
}

/// One value: a tag, then what the tag announces.
pub open spec fn value(s: Seq<u8>, pos: nat) -> Step<DataView>
    decreases left(s, pos), 0nat, 0nat,
{
    if pos < s.len() {
        let tag = s[pos as int];
        if tag == 45 {
            after(1, error_line(s, pos + 1))
        } else if tag == 43 {
            after(1, simple_string(s, pos + 1))
        } else if tag == 58 {
            after(1, integer(s, pos + 1))
        } else if tag == 36 {
            after(1, bulk_string(s, pos + 1))
        } else if tag == 42 {
            after(1, array(s, pos + 1))
        } else {
            failed(unknown_tag(tag), 1)
        }
    } else {
        failed(truncated(), 0)
    }
}

/// What follows the tag of an array: its count on a line, then that many
/// values. The count -1 stands for the null value, the count 0 for the empty
/// array.
pub open spec fn array(s: Seq<u8>, pos: nat) -> Step<DataView>
    decreases left(s, pos), 2nat, 0nat,
{
    let n = number(s, pos);
    match n.value {
        Err(e) => failed(e, n.used),
        Ok(count) => if count == -1 {
            done(DataView::Null, n.used)
        } else if count < 0 {
            failed(bad_length(), n.used)
        } else {
            let rest = items(s, pos + n.used, count as nat);
            match rest.value {
                Err(e) => failed(e, n.used + rest.used),
                Ok(elements) => done(DataView::Array(elements), n.used + rest.used),
            }
        },
    }
}

/// `count` values, one after the other. The first that fails ends the decoding.
pub open spec fn items(s: Seq<u8>, pos: nat, count: nat) -> Step<Seq<DataView>>
    decreases left(s, pos), 1nat, count,
{
    if count == 0 {
        done(Seq::empty(), 0)
    } else {
        let first = value(s, pos);
        match first.value {
            Err(e) => failed(e, first.used),
            Ok(element) => {
                let rest = items(s, pos + first.used, (count - 1) as nat);
                match rest.value {
                    Err(e) => failed(e, first.used + rest.used),
                    Ok(elements) => done(seq![element] + elements, first.used + rest.used),
                }
            },
        }
    }
}

/// A run of values that was decoded whole has as many values as were asked for.
pub proof fn lemma_items_count(s: Seq<u8>, pos: nat, count: nat)
    ensures
        items(s, pos, count).value matches Ok(elements) ==> elements.len() == count,
    decreases count,
{
    if count > 0 {
        let first = value(s, pos);
        if first.value is Ok {
            lemma_items_count(s, pos + first.used, (count - 1) as nat);
        }
    }
}

/// An array that was decoded has as many elements as its encoding declares.
pub proof fn lemma_array_count(s: Seq<u8>, pos: nat)
    ensures
        array(s, pos).value matches Ok(DataView::Array(elements)) ==> number(
            s,
            pos,
        ).value == Ok::<int, ErrorView>(elements.len() as int),
{
    if let Ok(count) = number(s, pos).value {
        if count >= 0 {
            lemma_items_count(s, pos + number(s, pos).used, count as nat);
        }
    }
}

/// A byte that announces no kind of value fails the decoding with an error
/// that carries the byte, and nothing after it is consumed.
pub proof fn lemma_unknown_tag(s: Seq<u8>, pos: nat)
    requires
        pos < s.len(),
        s[pos as int] != 45 && s[pos as int] != 43 && s[pos as int] != 58 && s[pos as int] != 36
            && s[pos as int] != 42,
    ensures
        value(s, pos) == failed::<DataView>(unknown_tag(s[pos as int]), 1),
{
}

} // verus!
