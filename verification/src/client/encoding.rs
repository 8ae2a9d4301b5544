//! Well-formed encodings of values, and the proof that decoding gives the
//! values back.

use crate::client::data::DataView;
use crate::client::errors::ErrorView;
use crate::client::wire;
use crate::client::wire::{done, CR};
use crate::text::{ascii, decimal, digit, natural_digits};
use vstd::prelude::*;
use vstd::utf8::{
    decode_utf8, encode_utf8, encode_utf8_decode_utf8, encode_utf8_valid_utf8, is_ascii_chars,
    is_ascii_chars_encode_utf8, valid_utf8,
};

verus! {

/// The two bytes that end a line.
pub open spec fn crlf() -> Seq<u8> {
    seq![CR, 10u8]
}

/// Whether `part` stands in `s` at `pos`.
pub open spec fn holds_at(s: Seq<u8>, pos: nat, part: Seq<u8>) -> bool {
    pos + part.len() <= s.len() && s.subrange(pos as int, (pos + part.len()) as int) == part
}

/// Where two parts stand one after the other, each of them stands in its place.
pub proof fn lemma_holds_split(s: Seq<u8>, pos: nat, first: Seq<u8>, second: Seq<u8>)
    requires
        holds_at(s, pos, first + second),
    ensures
        holds_at(s, pos, first),
        holds_at(s, pos + first.len(), second),
{
    let whole = s.subrange(pos as int, (pos + (first + second).len()) as int);
    assert(s.subrange(pos as int, (pos + first.len()) as int) =~= whole.subrange(
        0,
        first.len() as int,
    ));
    assert(whole.subrange(0, first.len() as int) =~= first);
    assert(s.subrange((pos + first.len()) as int, (pos + first.len() + second.len()) as int)
        =~= whole.subrange(
        first.len() as int,
        whole.len() as int,
    ));
    assert(whole.subrange(first.len() as int, whole.len() as int) =~= second);
}

/// A line ends at the first carriage return.
pub proof fn lemma_line_end(s: Seq<u8>, from: nat, stop: nat)
    requires
        from <= stop < s.len(),
        s[stop as int] == CR,
        forall|i: int| from <= i < stop ==> s[i] != CR,
    ensures
        wire::line_end(s, from) == stop,
    decreases stop - from,
{
    if from < stop {
        lemma_line_end(s, from + 1, stop);
    }
}

/// A text without carriage return, followed by the end of a line, is read as
/// that line.
pub proof fn lemma_line(s: Seq<u8>, pos: nat, text: Seq<u8>)
    requires
        holds_at(s, pos, text + crlf()),
        !text.contains(CR),
    ensures
        wire::line(s, pos) == done(text, text.len() + 2),
{
    lemma_holds_split(s, pos, text, crlf());
    let stop = pos + text.len();
    assert(s[stop as int] == s.subrange(stop as int, (stop + 2) as int)[0]);
    assert forall|i: int| pos <= i < stop implies s[i] != CR by {
        assert(s[i] == s.subrange(pos as int, stop as int)[i - pos]);
        assert(text.contains(text[i - pos]));
    }
    lemma_line_end(s, pos, stop);
}

/// Bytes below 128 are UTF-8 for the characters of the same numbers.
pub proof fn lemma_ascii_is_text(bytes: Seq<u8>)
    requires
        forall|i: int| 0 <= i < bytes.len() ==> bytes[i] < 128,
    ensures
        valid_utf8(bytes),
        decode_utf8(bytes) == ascii(bytes),
{
    let chars = ascii(bytes);
    assert(is_ascii_chars(chars));
    is_ascii_chars_encode_utf8(chars);
    assert(encode_utf8(chars) =~= bytes);
    encode_utf8_valid_utf8(chars);
    encode_utf8_decode_utf8(chars);
}

/// The digits of a number are digits, and write that number.
pub proof fn lemma_natural_digits(n: nat)
    ensures
        natural_digits(n).len() > 0,
        wire::all_digits(ascii(natural_digits(n))),
        wire::digits_value(ascii(natural_digits(n))) == n,
    decreases n,
{
    let digits = ascii(natural_digits(n));
    if n >= 10 {
        lemma_natural_digits(n / 10);
        let shorter = ascii(natural_digits(n / 10));
        let d = digit((n % 10) as int);
        assert(digits.drop_last() =~= shorter);
        assert(digits.last() == d as char);
        assert(d - 48 == n % 10);
        assert(wire::digits_value(digits) == wire::digits_value(shorter) * 10 + (d - 48));
        assert forall|i: int| 0 <= i < digits.len() implies wire::is_digit(#[trigger] digits[i]) by {
            if i < shorter.len() {
                assert(digits[i] == shorter[i]);
            }
        }
    } else {
        assert(digits.drop_last() =~= Seq::<char>::empty());
        assert(wire::digits_value(digits.drop_last()) == 0);
        assert(digits.last() as int - 48 == n);
    }
}

/// The decimal writing of an integer of 64 bits is read back as that integer.
pub proof fn lemma_decimal_is_integer(v: int)
    requires
        i64::MIN <= v <= i64::MAX,
    ensures
        wire::integer_of(decimal(v)) == Ok::<int, ErrorView>(v),
        !decimal(v).contains(CR),
        decimal(v).len() > 0,
{
    let bytes = decimal(v);
    let s = ascii(bytes);
    let magnitude = if v < 0 {
        (-v) as nat
    } else {
        v as nat
    };
    lemma_natural_digits(magnitude);
    let digits = ascii(natural_digits(magnitude));
    assert forall|i: int| 0 <= i < s.len() implies (wire::is_digit(#[trigger] s[i]) || s[i] == '-') by {
        if v < 0 && i > 0 {
            assert(s[i] == digits[i - 1]);
        } else if v >= 0 {
            assert(s[i] == digits[i]);
        }
    }
    assert forall|i: int| 0 <= i < bytes.len() implies bytes[i] < 128 by {
        assert(wire::is_digit(s[i]) || s[i] == '-');
    }
    lemma_ascii_is_text(bytes);
    if v < 0 {
        assert(s.skip(1) =~= digits);
    } else {
        assert(wire::is_digit(s[0]));
        assert(s =~= digits);
    }
    if bytes.contains(CR) {
        let i = choose|i: int| 0 <= i < bytes.len() && bytes[i] == CR;
        assert(wire::is_digit(s[i]) || s[i] == '-');
    }
}

/// An integer on its line is read as that integer.
pub proof fn lemma_number(s: Seq<u8>, pos: nat, v: int)
    requires
        i64::MIN <= v <= i64::MAX,
        holds_at(s, pos, decimal(v) + crlf()),
    ensures
        wire::number(s, pos) == done(v, decimal(v).len() + 2),
{
    lemma_decimal_is_integer(v);
    lemma_line(s, pos, decimal(v));
}

/// A well-formed piece of the wire format, by its kind.
pub enum Frame {
    /// A simple string, with the bytes of its line.
    Simple(Seq<u8>),
    /// An integer.
    Integer(int),
    /// A bulk string, with the bytes of its payload.
    Bulk(Seq<u8>),
    /// The null value in the writing of a bulk string.
    NullBulk,
    /// The null value in the writing of an array.
    NullArray,
    /// An array of pieces.
    Array(Seq<Frame>),
}

impl Frame {
    /// Whether the piece can be written at all: its texts are UTF-8, a simple
    /// string holds no carriage return, and numbers and lengths fit 64 bits.
    pub open spec fn well_formed(self) -> bool
        decreases self,
    {
        match self {
            Frame::Simple(text) => valid_utf8(text) && !text.contains(CR),
            Frame::Integer(v) => i64::MIN <= v <= i64::MAX,
            Frame::Bulk(text) => valid_utf8(text) && text.len() <= i64::MAX,
            Frame::NullBulk => true,
            Frame::NullArray => true,
            Frame::Array(elements) => elements.len() <= i64::MAX && forall|i: int|
                0 <= i < elements.len() ==> (#[trigger] elements[i]).well_formed(),
        }
    }

    /// The bytes that write the piece.
    pub open spec fn bytes(self) -> Seq<u8>
        decreases self, 0nat,
    {
        match self {
            Frame::Simple(text) => seq![43u8] + text + crlf(),
            Frame::Integer(v) => seq![58u8] + decimal(v) + crlf(),
            Frame::Bulk(text) => seq![36u8] + decimal(text.len() as int) + crlf() + text + crlf(),
            Frame::NullBulk => seq![36u8] + decimal(-1) + crlf(),
            Frame::NullArray => seq![42u8] + decimal(-1) + crlf(),
            Frame::Array(elements) => seq![42u8] + decimal(elements.len() as int) + crlf()
                + Self::run(elements, 0),
        }
    }

    /// The bytes that write the elements from `from` on, one after the other.
    pub open spec fn run(elements: Seq<Frame>, from: nat) -> Seq<u8>
        decreases elements, elements.len() - from,
    {
        if from < elements.len() {
            elements[from as int].bytes() + Self::run(elements, from + 1)
        } else {
            Seq::empty()
        }
    }

    /// The value that the piece writes.
    pub open spec fn value(self) -> DataView
        decreases self,
    {
        match self {
            Frame::Simple(text) => DataView::String(decode_utf8(text)),
            Frame::Integer(v) => DataView::Integer(v),
            Frame::Bulk(text) => DataView::String(decode_utf8(text)),
            Frame::NullBulk => DataView::Null,
            Frame::NullArray => DataView::Null,
            Frame::Array(elements) => DataView::Array(
                Seq::new(
                    elements.len(),
                    |i: int|
                        if 0 <= i < elements.len() {
                            elements[i].value()
                        } else {
                            DataView::Null
                        },
                ),
            ),
        }
    }
}

/// The values of the elements from `from` on.
pub open spec fn values(elements: Seq<Frame>, from: nat) -> Seq<DataView> {
    Seq::new(
        (elements.len() - from) as nat,
        |i: int|
            if 0 <= i < elements.len() - from {
                elements[from + i].value()
            } else {
                DataView::Null
            },
    )
}

/// A bulk string takes its header, as many bytes as the header declares, and
/// two bytes more, whatever any of them hold; its value is the text of the
/// declared bytes.
pub proof fn lemma_bulk_string_at(s: Seq<u8>, pos: nat, text: Seq<u8>)
    requires
        text.len() <= i64::MAX,
        holds_at(s, pos, seq![36u8] + decimal(text.len() as int) + crlf() + text),
        pos + 1 + decimal(text.len() as int).len() + 2 + text.len() + 2 <= s.len(),
    ensures
        wire::value(s, pos).used == 1 + decimal(text.len() as int).len() + 2 + text.len() + 2,
        wire::value(s, pos).value == match wire::text_of(text) {
            Ok(t) => Ok::<DataView, ErrorView>(DataView::String(t)),
            Err(e) => Err::<DataView, ErrorView>(e),
        },
{
    let length = decimal(text.len() as int);
    let tag = seq![36u8];
    assert(tag + length + crlf() + text =~= tag + ((length + crlf()) + text));
    lemma_holds_split(s, pos, tag, (length + crlf()) + text);
    lemma_holds_split(s, pos + 1, length + crlf(), text);
    assert(s[pos as int] == s.subrange(pos as int, (pos + 1) as int)[0]);
    lemma_number(s, pos + 1, text.len() as int);
}

/// Decoding where a well-formed piece stands gives the value of the piece,
/// and takes the bytes of the piece.
pub proof fn lemma_value_at(frame: Frame, s: Seq<u8>, pos: nat)
    requires
        frame.well_formed(),
        holds_at(s, pos, frame.bytes()),
    ensures
        wire::value(s, pos) == done(frame.value(), frame.bytes().len()),
    decreases frame, 0nat,
{
    assert(s[pos as int] == s.subrange(pos as int, (pos + frame.bytes().len()) as int)[0]);
    match frame {
        Frame::Simple(text) => {
            let tag = seq![43u8];
            assert(frame.bytes() =~= tag + (text + crlf()));
            lemma_holds_split(s, pos, tag, text + crlf());
            lemma_line(s, pos + 1, text);
        },
        Frame::Integer(v) => {
            let tag = seq![58u8];
            assert(frame.bytes() =~= tag + (decimal(v) + crlf()));
            lemma_holds_split(s, pos, tag, decimal(v) + crlf());
            lemma_number(s, pos + 1, v);
        },
        Frame::Bulk(text) => {
            let head = seq![36u8] + decimal(text.len() as int) + crlf() + text;
            lemma_holds_split(s, pos, head, crlf());
            lemma_bulk_string_at(s, pos, text);
        },
        Frame::NullBulk => {
            let tag = seq![36u8];
            assert(frame.bytes() =~= tag + (decimal(-1) + crlf()));
            lemma_holds_split(s, pos, tag, decimal(-1) + crlf());
            lemma_number(s, pos + 1, -1);
        },
        Frame::NullArray => {
            let tag = seq![42u8];
            assert(frame.bytes() =~= tag + (decimal(-1) + crlf()));
            lemma_holds_split(s, pos, tag, decimal(-1) + crlf());
            lemma_number(s, pos + 1, -1);
        },
        Frame::Array(elements) => {
            let tag = seq![42u8];
            let count = decimal(elements.len() as int) + crlf();
            let run = Frame::run(elements, 0);
            assert(frame.bytes() =~= tag + (count + run));
            lemma_holds_split(s, pos, tag, count + run);
            lemma_holds_split(s, pos + 1, count, run);
            lemma_number(s, pos + 1, elements.len() as int);
            lemma_items_at(elements, 0, s, pos + 1 + count.len());
            assert(values(elements, 0) =~= frame.value()->Array_0);
        },
    }
}

/// Decoding where well-formed pieces stand one after the other gives their
/// values in order.
pub proof fn lemma_items_at(elements: Seq<Frame>, from: nat, s: Seq<u8>, pos: nat)
    requires
        from <= elements.len(),
        forall|i: int| 0 <= i < elements.len() ==> (#[trigger] elements[i]).well_formed(),
        holds_at(s, pos, Frame::run(elements, from)),
    ensures
        wire::items(s, pos, (elements.len() - from) as nat) == done(
            values(elements, from),
            Frame::run(elements, from).len(),
        ),
    decreases elements, elements.len() - from,
{
    if from < elements.len() {
        let first = elements[from as int];
        let rest = Frame::run(elements, from + 1);
        lemma_holds_split(s, pos, first.bytes(), rest);
        lemma_value_at(first, s, pos);
        lemma_items_at(elements, from + 1, s, pos + first.bytes().len());
        assert(seq![first.value()] + values(elements, from + 1) =~= values(elements, from));
    } else {
        assert(values(elements, from) =~= Seq::<DataView>::empty());
    }
}

/// Whatever comes before and after it, the encoding of a well-formed piece
/// decodes to the value of the piece, and exactly its bytes are consumed.
pub proof fn lemma_decoding_inverts_encoding(frame: Frame, before: Seq<u8>, rest: Seq<u8>)
    requires
        frame.well_formed(),
    ensures
        wire::value(before + frame.bytes() + rest, before.len()) == done(
            frame.value(),
            frame.bytes().len(),
        ),
{
    let s = before + frame.bytes() + rest;
    assert(s.subrange(before.len() as int, (before.len() + frame.bytes().len()) as int)
        =~= frame.bytes());
    lemma_value_at(frame, s, before.len());
}

} // verus!
