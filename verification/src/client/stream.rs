//! Replies off a stream: when the bytes received so far hold a whole reply.

use crate::client::data::{Data, DataView};
use crate::client::errors::{ErrorView, RedashError};
use crate::client::parser::{agrees, Parser};
use crate::client::wire;
use crate::client::wire::Step;
use vstd::prelude::*;

verus! {

/// Whether a step ran out of input.
pub open spec fn ran_out<T>(step: Step<T>) -> bool {
    step.value == Err::<T, ErrorView>(wire::truncated())
}

/// Whether the bytes received so far end before the reply does.
pub open spec fn incomplete(received: Seq<u8>) -> bool {
    ran_out(wire::value(received, 0))
}

/// The reply that the bytes received so far hold: a value or an error; or
/// nothing yet, where more bytes have to come before the reply is whole.
pub fn reply(received: Vec<u8>) -> (reply: Option<Result<Data, RedashError>>)
    ensures
        incomplete(received@) <==> reply is None,
        reply matches Some(answer) ==> agrees(answer, wire::value(received@, 0).value),
{
    let mut parser = Parser::new(received);
    match parser.next() {
        Ok(data) => Some(Ok(data)),
        Err(RedashError::IOError(text)) => {
            proof {
                lemma_only_truncation_is_io(received@, 0);
            }
            None
        },
        Err(error) => {
            Some(Err(error))
        },
    }
}

/// The decoder knows one error of input and output: the end of the input.
pub proof fn lemma_only_truncation_is_io(s: Seq<u8>, pos: nat)
    ensures
        wire::value(s, pos).value matches Err(ErrorView::IOError(text))
            ==> wire::value(s, pos).value == Err::<DataView, ErrorView>(
            wire::truncated(),
        ),
    decreases wire::left(s, pos), 0nat, 0nat,
{
    if pos < s.len() && s[pos as int] == 42 {
        let n = wire::number(s, pos + 1);
        if let Ok(count) = n.value {
            if count >= 0 {
                lemma_only_truncation_in_items(s, pos + 1 + n.used, count as nat);
            }
        }
    }
}

/// The same of a run of values.
pub proof fn lemma_only_truncation_in_items(s: Seq<u8>, pos: nat, count: nat)
    ensures
        wire::items(s, pos, count).value matches Err(ErrorView::IOError(text))
            ==> wire::items(s, pos, count).value == Err::<Seq<DataView>, ErrorView>(
            wire::truncated(),
        ),
    decreases wire::left(s, pos), 1nat, count,
{
    if count > 0 {
        lemma_only_truncation_is_io(s, pos);
        let first = wire::value(s, pos);
        if first.value is Ok {
            lemma_only_truncation_in_items(s, pos + first.used, (count - 1) as nat);
        }
    }
}

/// A carriage return that was found stays the first, whatever follows the input.
pub proof fn lemma_line_end_stays(p: Seq<u8>, q: Seq<u8>, from: nat)
    requires
        wire::line_end(p, from) < p.len(),
    ensures
        wire::line_end(p + q, from) == wire::line_end(p, from),
    decreases wire::left(p, from),
{
    if from < p.len() {
        assert((p + q)[from as int] == p[from as int]);
        if p[from as int] != wire::CR {
            lemma_line_end_stays(p, q, from + 1);
        }
    }
}

/// A line that was read whole stays the same, whatever follows the input.
pub proof fn lemma_line_stays(p: Seq<u8>, q: Seq<u8>, pos: nat)
    requires
        !ran_out(wire::line(p, pos)),
    ensures
        wire::line(p + q, pos) == wire::line(p, pos),
{
    let stop = wire::line_end(p, pos);
    lemma_line_end_stays(p, q, pos);
    assert((p + q).subrange(pos as int, stop as int) =~= p.subrange(pos as int, stop as int));
}

/// An integer line that was read whole stays the same, whatever follows.
pub proof fn lemma_number_stays(p: Seq<u8>, q: Seq<u8>, pos: nat)
    requires
        !ran_out(wire::number(p, pos)),
    ensures
        wire::number(p + q, pos) == wire::number(p, pos),
{
    lemma_line_stays(p, q, pos);
}

/// A payload that was read whole stays the same, whatever follows.
pub proof fn lemma_payload_stays(p: Seq<u8>, q: Seq<u8>, pos: nat, length: int)
    requires
        !ran_out(wire::payload(p, pos, length)),
    ensures
        wire::payload(p + q, pos, length) == wire::payload(p, pos, length),
{
    assert((p + q).subrange(pos as int, pos + length) =~= p.subrange(pos as int, pos + length));
}

/// A value that was decoded from the input, or an error other than the end
/// of the input, stays the same whatever bytes follow the input.
pub proof fn lemma_value_stays(p: Seq<u8>, q: Seq<u8>, pos: nat)
    requires
        !ran_out(wire::value(p, pos)),
    ensures
        wire::value(p + q, pos) == wire::value(p, pos),
    decreases wire::left(p, pos), 0nat, 0nat,
{
    assert((p + q)[pos as int] == p[pos as int]);
    let tag = p[pos as int];
    if tag == 45 || tag == 43 {
        lemma_line_stays(p, q, pos + 1);
    } else if tag == 58 {
        lemma_number_stays(p, q, pos + 1);
    } else if tag == 36 {
        lemma_number_stays(p, q, pos + 1);
        let n = wire::number(p, pos + 1);
        if let Ok(length) = n.value {
            if length >= 0 {
                lemma_payload_stays(p, q, pos + 1 + n.used, length);
            }
        }
    } else if tag == 42 {
        lemma_number_stays(p, q, pos + 1);
        let n = wire::number(p, pos + 1);
        if let Ok(count) = n.value {
            if count >= 0 {
                lemma_items_stay(p, q, pos + 1 + n.used, count as nat);
            }
        }
    }
}

/// The same of a run of values.
pub proof fn lemma_items_stay(p: Seq<u8>, q: Seq<u8>, pos: nat, count: nat)
    requires
        !ran_out(wire::items(p, pos, count)),
    ensures
        wire::items(p + q, pos, count) == wire::items(p, pos, count),
    decreases wire::left(p, pos), 1nat, count,
{
    if count > 0 {
        lemma_value_stays(p, q, pos);
        let first = wire::value(p, pos);
        if first.value is Ok {
            lemma_items_stay(p, q, pos + first.used, (count - 1) as nat);
        }
    }
}

/// Once the bytes received hold a whole reply, the reply is what decoding
/// gives however much more is received: it is safe to decode again each time
/// more bytes have come, and to stop at the first reply that is whole.
pub proof fn lemma_whole_reply_stays(received: Seq<u8>, more: Seq<u8>)
    requires
        !incomplete(received),
    ensures
        !incomplete(received + more),
        wire::value(received + more, 0) == wire::value(received, 0),
{
    lemma_value_stays(received, more, 0);
}

} // verus!
