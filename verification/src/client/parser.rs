//! The decoder: one value of the protocol at a time, off the bytes received.

pub use crate::client::data::Data;
use crate::client::data::{models, DataView};
use crate::client::errors::{ErrorView, RedashError};
use crate::client::wire;
use crate::client::wire::Step;
use crate::text::utf8_text;
use vstd::prelude::*;
use vstd::string::StringExecFns;
use vstd::utf8::encode_utf8_decode_utf8;

verus! {

/// A decoder over the bytes received so far, with the position it has reached.
#[derive(Debug)]
pub struct Parser {
    source: Vec<u8>,
    cursor: usize,
}

/// Whether what a decoding function returned is what the grammar says.
pub open spec fn agrees<T: View>(got: Result<T, RedashError>, said: Result<T::V, ErrorView>) -> bool {
    match got {
        Ok(value) => said == Ok::<T::V, ErrorView>(value@),
        Err(error) => said == Err::<T::V, ErrorView>(error@),
    }
}

fn truncated() -> (e: RedashError)
    ensures
        e@ == wire::truncated(),
{
    RedashError::IOError(String::from_str("failed to fill whole buffer"))
}

fn not_text() -> (e: RedashError)
    ensures
        e@ == wire::not_text(),
{
    RedashError::UnknownError(String::from_str("invalid utf-8 sequence"))
}

fn not_integer() -> (e: RedashError)
    ensures
        e@ == wire::not_integer(),
{
    RedashError::UnknownError(String::from_str("invalid integer"))
}

fn bad_length() -> (e: RedashError)
    ensures
        e@ == wire::bad_length(),
{
    RedashError::UnknownError(String::from_str("invalid length"))
}

/// A longer sequence of digits writes no smaller number than its beginning.
proof fn lemma_digits_value_grows(s: Seq<char>, k: int)
    requires
        wire::all_digits(s),
        0 <= k <= s.len(),
    ensures
        0 <= wire::digits_value(s.subrange(0, k)) <= wire::digits_value(s),
    decreases s.len() - k,
{
    if k == s.len() {
        assert(s.subrange(0, k) =~= s);
        lemma_digits_value_nonnegative(s);
    } else {
        lemma_digits_value_grows(s, k + 1);
        let longer = s.subrange(0, k + 1);
        assert(longer.drop_last() =~= s.subrange(0, k));
        assert(wire::is_digit(s[k]));
        lemma_digits_value_nonnegative(s.subrange(0, k));
    }
}

proof fn lemma_digits_value_nonnegative(s: Seq<char>)
    requires
        wire::all_digits(s),
    ensures
        0 <= wire::digits_value(s),
    decreases s.len(),
{
    if s.len() > 0 {
        assert(wire::is_digit(s[s.len() - 1]));
        lemma_digits_value_nonnegative(s.drop_last());
    }
}

/// The characters of a string, one by one.
fn chars_of(s: &str) -> (chars: Vec<char>)
    ensures
        chars@ == s@,
{
    let mut chars: Vec<char> = Vec::new();
    for c in it: s.chars()
        invariant
            chars@ == it.seq().subrange(0, it.index() as int),
            it.seq() == s@,
    {
        chars.push(c);
    }
    chars
}

/// The text of a line as text.
pub fn text_of(bytes: &Vec<u8>) -> (r: Result<String, RedashError>)
    ensures
        agrees(r, wire::text_of(bytes@)),
{
    match utf8_text(bytes.as_slice()) {
        Some(s) => {
            proof {
                // the characters of a string are what its bytes decode to
                encode_utf8_decode_utf8(s@);
            }
            Ok(String::from_str(s))
        },
        None => Err(not_text()),
    }
}

/// The integer that the text of a line holds.
#[verifier::loop_isolation(false)]
pub fn integer_of(bytes: &Vec<u8>) -> (r: Result<i64, RedashError>)
    ensures
        match r {
            Ok(value) => wire::integer_of(bytes@) == Ok::<int, ErrorView>(value as int),
            Err(error) => wire::integer_of(bytes@) == Err::<int, ErrorView>(error@),
        },
{
    let text: Vec<char> = match utf8_text(bytes.as_slice()) {
        Some(s) => {
            proof {
                encode_utf8_decode_utf8(s@);
            }
            chars_of(s)
        },
        None => {
            return Err(not_text());
        },
    };
    let len: usize = text.len();
    let negative: bool = 0 < len && text[0] == '-';
    let signed: bool = 0 < len && (text[0] == '-' || text[0] == '+');
    let start: usize = if signed {
        1
    } else {
        0
    };
    let ghost digits = text@.subrange(start as int, len as int);
    assert(digits =~= if signed {
        text@.skip(1)
    } else {
        text@
    });
    if start == len {
        return Err(not_integer());
    }
    let limit: u64 = if negative {
        9223372036854775808
    } else {
        9223372036854775807
    };
    let mut magnitude: u64 = 0;
    let mut i: usize = start;
    while i < len
        invariant
            start <= i <= len == text.len(),
            digits == text@.subrange(start as int, len as int),
            wire::all_digits(digits.subrange(0, i - start)),
            magnitude == wire::digits_value(digits.subrange(0, i - start)),
            magnitude <= limit <= 9223372036854775808,
        decreases len - i,
    {
        let c: char = text[i];
        let ghost shorter = digits.subrange(0, i - start);
        let ghost longer = digits.subrange(0, i - start + 1);
        assert(longer.drop_last() =~= shorter);
        assert(longer.last() == c);
        if !('0' <= c && c <= '9') {
            assert(!wire::is_digit(digits[i - start]));
            return Err(not_integer());
        }
        if magnitude > 922337203685477580 {
            proof {
                if wire::all_digits(digits) {
                    lemma_digits_value_grows(digits, i - start + 1);
                }
            }
            return Err(not_integer());
        }
        let next: u64 = magnitude * 10 + (c as u64 - 48);
        if next > limit {
            proof {
                if wire::all_digits(digits) {
                    lemma_digits_value_grows(digits, i - start + 1);
                }
            }
            return Err(not_integer());
        }
        assert forall|j: int| 0 <= j < longer.len() implies wire::is_digit(#[trigger] longer[j]) by {
            if j < shorter.len() {
                assert(longer[j] == shorter[j]);
            }
        }
        magnitude = next;
        i = i + 1;
    }
    assert(digits.subrange(0, i - start) =~= digits);
    if negative {
        if magnitude == 9223372036854775808 {
            Ok(i64::MIN)
        } else {
            Ok(-(magnitude as i64))
        }
    } else {
        Ok(magnitude as i64)
    }
}

/// The elements decoded so far, then what the rest of the input gives.
pub open spec fn prepend(elements: Seq<DataView>, used: nat, rest: Step<Seq<DataView>>) -> Step<
    Seq<DataView>,
> {
    Step {
        value: match rest.value {
            Ok(more) => Ok(elements + more),
            Err(e) => Err(e),
        },
        used: used + rest.used,
    }
}

impl Parser {
    #[verifier::type_invariant]
    spec fn within(self) -> bool {
        self.cursor <= self.source.len()
    }

    /// The bytes that this decoder was given.
    pub closed spec fn input(self) -> Seq<u8> {
        self.source@
    }

    /// How many of them it has consumed.
    pub closed spec fn position(self) -> nat {
        self.cursor as nat
    }

    /// Whether a decoding function that found this decoder, left it as
    /// `after` and returned `got` did what the grammar says of that step.
    pub open spec fn took<T: View>(
        self,
        after: Parser,
        got: Result<T, RedashError>,
        step: Step<T::V>,
    ) -> bool {
        &&& after.input() == self.input()
        &&& after.position() == self.position() + step.used
        &&& agrees(got, step.value)
    }

    /// A decoder at the start of `source`.
    pub fn new(source: Vec<u8>) -> (parser: Parser)
        ensures
            parser.input() == source@,
            parser.position() == 0,
    {
        Parser { source, cursor: 0 }
    }

    /// The number of bytes consumed so far.
    pub fn consumed(&self) -> (n: usize)
        ensures
            n == self.position(),
    {
        self.cursor
    }

    /// Decodes one value. On failure nothing of a value is handed out, and
    /// the position is where the failure was found.
    pub fn next(&mut self) -> (r: Result<Data, RedashError>)
        ensures
            old(self).took(*final(self), r, wire::value(old(self).input(), old(self).position())),
        decreases wire::left(old(self).input(), old(self).position()), 0nat,
    {
        let tag: u8 = match self.type_indicator() {
            Ok(tag) => tag,
            Err(e) => {
                return Err(e);
            },
        };
        if tag == 45 {
            match self.data_error() {
                Err(e) => Err(e),
                Ok(_) => Ok(Data::Null),
            }
        } else if tag == 43 {
            self.data_simple_string()
        } else if tag == 58 {
            self.data_integer()
        } else if tag == 36 {
            self.data_bulk_string()
        } else if tag == 42 {
            self.data_array()
        } else {
            Err(RedashError::ServerError(String::from_str("invalid_server_data_type"), tag))
        }
    }

    /// Reads one byte.
    pub fn char(&mut self) -> (r: Result<u8, RedashError>)
        ensures
            old(self).took(*final(self), r, wire::byte(old(self).input(), old(self).position())),
    {
        proof {
            use_type_invariant(&*self);
        }
        if self.cursor < self.source.len() {
            let b: u8 = self.source[self.cursor];
            self.cursor = self.cursor + 1;
            Ok(b)
        } else {
            Err(truncated())
        }
    }

    /// Reads a line: the bytes before the next carriage return, which is
    /// consumed together with the byte that follows it.
    pub fn line(&mut self) -> (r: Result<Vec<u8>, RedashError>)
        ensures
            old(self).took(*final(self), r, wire::line(old(self).input(), old(self).position())),
    {
        proof {
            use_type_invariant(&*self);
        }
        let len: usize = self.source.len();
        let mut bytes: Vec<u8> = Vec::new();
        let mut i: usize = self.cursor;
        while i < len && self.source[i] != wire::CR
            invariant
                self.cursor <= i <= len == self.source.len(),
                wire::line_end(self.source@, self.cursor as nat) == wire::line_end(
                    self.source@,
                    i as nat,
                ),
                bytes@ == self.source@.subrange(self.cursor as int, i as int),
            decreases len - i,
        {
            bytes.push(self.source[i]);
            assert(bytes@ =~= self.source@.subrange(self.cursor as int, i + 1));
            i = i + 1;
        }
        if i < len && len - i > 1 {
            self.cursor = i + 2;
            Ok(bytes)
        } else {
            self.cursor = len;
            Err(truncated())
        }
    }

    /// Reads the byte that tells the kind of the value that follows.
    pub fn type_indicator(&mut self) -> (r: Result<u8, RedashError>)
        ensures
            old(self).took(*final(self), r, wire::byte(old(self).input(), old(self).position())),
    {
        self.char()
    }

    /// Reads the rest of an error line. The server's text is the error
    /// returned: this function never succeeds.
    pub fn data_error(&mut self) -> (r: Result<(), RedashError>)
        ensures
            r is Err,
            final(self).input() == old(self).input(),
            final(self).position() == old(self).position() + wire::error_line(
                old(self).input(),
                old(self).position(),
            ).used,
            wire::error_line(old(self).input(), old(self).position()).value == Err::<
                DataView,
                ErrorView,
            >(r->Err_0@),
    {
        let line = match self.line() {
            Ok(line) => line,
            Err(e) => {
                return Err(e);
            },
        };
        match text_of(&line) {
            Ok(text) => Err(RedashError::DataError(text)),
            Err(e) => Err(e),
        }
    }

    /// Reads the rest of an integer.
    pub fn data_integer(&mut self) -> (r: Result<Data, RedashError>)
        ensures
            old(self).took(*final(self), r, wire::integer(old(self).input(), old(self).position())),
    {
        let line = match self.line() {
            Ok(line) => line,
            Err(e) => {
                return Err(e);
            },
        };
        match integer_of(&line) {
            Ok(number) => Ok(Data::Integer(number)),
            Err(e) => Err(e),
        }
    }

    /// Reads the rest of a simple string.
    pub fn data_simple_string(&mut self) -> (r: Result<Data, RedashError>)
        ensures
            old(self).took(
                *final(self),
                r,
                wire::simple_string(old(self).input(), old(self).position()),
            ),
    {
        let line = match self.line() {
            Ok(line) => line,
            Err(e) => {
                return Err(e);
            },
        };
        match text_of(&line) {
            Ok(text) => Ok(Data::String(text)),
            Err(e) => Err(e),
        }
    }

    /// Reads the rest of a bulk string: the declared number of bytes, and two
    /// more that are dropped unread.
    pub fn data_bulk_string(&mut self) -> (r: Result<Data, RedashError>)
        ensures
            old(self).took(
                *final(self),
                r,
                wire::bulk_string(old(self).input(), old(self).position()),
            ),
    {
        let total_chars: i64 = match self.data_integer() {
            Ok(Data::Integer(n)) => n,
            Ok(_) => -1,
            Err(e) => {
                return Err(e);
            },
        };
        if total_chars == -1 {
            return Ok(Data::Null);
        }
        if total_chars < 0 {
            return Err(bad_length());
        }
        proof {
            use_type_invariant(&*self);
        }
        let len: usize = self.source.len();
        let start: usize = self.cursor;
        if total_chars as u64 + 2 > (len - start) as u64 {
            self.cursor = len;
            return Err(truncated());
        }
        let end: usize = start + total_chars as usize;
        let mut bytes: Vec<u8> = Vec::new();
        let mut i: usize = start;
        while i < end
            invariant
                start <= i <= end <= self.source.len(),
                bytes@ == self.source@.subrange(start as int, i as int),
            decreases end - i,
        {
            bytes.push(self.source[i]);
            assert(bytes@ =~= self.source@.subrange(start as int, i + 1));
            i = i + 1;
        }
        self.cursor = end + 2;
        match text_of(&bytes) {
            Ok(text) => Ok(Data::String(text)),
            Err(e) => Err(e),
        }
    }

    /// Reads the rest of an array: the declared number of values, in order.
    #[verifier::loop_isolation(false)]
    pub fn data_array(&mut self) -> (r: Result<Data, RedashError>)
        ensures
            old(self).took(*final(self), r, wire::array(old(self).input(), old(self).position())),
        decreases wire::left(old(self).input(), old(self).position()), 1nat,
    {
        let total_items: i64 = match self.data_integer() {
            Ok(Data::Integer(n)) => n,
            Ok(_) => -1,
            Err(e) => {
                return Err(e);
            },
        };
        if total_items == -1 {
            return Ok(Data::Null);
        }
        if total_items < 0 {
            return Err(bad_length());
        }
        let ghost input = self.input();
        let ghost start = self.position();
        let mut items: Vec<Box<Data>> = Vec::new();
        let mut k: i64 = 0;
        assert(models(items) =~= Seq::<DataView>::empty());
        while k < total_items
            invariant
                0 <= k <= total_items,
                self.input() == input,
                input == old(self).input(),
                old(self).position() <= start <= self.position(),
                wire::items(input, start, total_items as nat) == prepend(
                    models(items),
                    (self.position() - start) as nat,
                    wire::items(input, self.position(), (total_items - k) as nat),
                ),
            decreases total_items - k,
        {
            let ghost here = self.position();
            let ghost before = models(items);
            match self.next() {
                Ok(item) => {
                    items.push(Box::new(item));
                    assert(models(items) =~= before + seq![item@]);
                    assert(before + (seq![item@] + wire::items(
                        input,
                        self.position(),
                        (total_items - k - 1) as nat,
                    ).value->Ok_0) =~= models(items) + wire::items(
                        input,
                        self.position(),
                        (total_items - k - 1) as nat,
                    ).value->Ok_0);
                },
                Err(e) => {
                    return Err(e);
                },
            }
            k = k + 1;
        }
        assert(Data::Array(items)@ == DataView::Array(models(items))) by {
            assert(Data::Array(items).model()->Array_0 =~= models(items));
        }
        assert(models(items) + Seq::<DataView>::empty() =~= models(items));
        Ok(Data::Array(items))
    }
}

} // verus!
