//! The reassembly of messages from the writes of a central.
//!
//! A central writes a message in small pieces. The peripheral gathers them
//! in a buffer and, after each write, looks whether the buffer holds whole
//! messages: JSON objects, one alone or several on lines of their own.

use crate::server::handlers::{payload_of_text, PartialPayload, PartialPayloadView};
use vstd::prelude::*;
use vstd::slice::slice_subrange;
use vstd::utf8::valid_utf8;

verus! {

/// The length beyond which a buffer that holds no message is dropped.
pub const MAX_BUFFER: usize = 2048;

/// The byte that ends a line.
pub const LINE_FEED: u8 = 10;

/// The byte that may stand before the end of a line.
pub const CARRIAGE_RETURN: u8 = 13;

/// The index of the first line feed in `bytes`; their length where there is
/// none.
pub open spec fn first_line_feed(bytes: Seq<u8>) -> int
    decreases bytes.len(),
{
    if bytes.len() == 0 {
        0
    } else if bytes[0] == LINE_FEED {
        0
    } else {
        1 + first_line_feed(bytes.drop_first())
    }
}

/// Whether `bytes` hold a line feed.
pub open spec fn has_line_feed(bytes: Seq<u8>) -> bool {
    first_line_feed(bytes) < bytes.len()
}

/// A line without the carriage return at its end, if it has one.
pub open spec fn without_carriage_return(line: Seq<u8>) -> Seq<u8> {
    if line.len() > 0 && line.last() == CARRIAGE_RETURN {
        line.drop_last()
    } else {
        line
    }
}

/// The lines of `bytes`. A line ends at a line feed, which is not part of
/// it, nor is a carriage return just before the line feed. What follows the
/// last line feed is a line too, unless it is empty.
pub open spec fn lines_of(bytes: Seq<u8>) -> Seq<Seq<u8>>
    decreases bytes.len(),
{
    if bytes.len() == 0 {
        seq![]
    } else {
        let end = first_line_feed(bytes);
        if 0 <= end < bytes.len() {
            seq![without_carriage_return(bytes.take(end))] + lines_of(bytes.skip(end + 1))
        } else {
            seq![bytes]
        }
    }
}

/// The message in one piece of text, as a list: empty where the text holds
/// none.
pub open spec fn message_in(text: Seq<u8>) -> Seq<PartialPayloadView> {
    match payload_of_text(text) {
        Some(payload) => seq![payload],
        None => seq![],
    }
}

/// The messages in a list of lines: each line is read on its own, and a line
/// that holds no message is passed over.
pub open spec fn messages_in_lines(lines: Seq<Seq<u8>>) -> Seq<PartialPayloadView>
    decreases lines.len(),
{
    if lines.len() == 0 {
        seq![]
    } else {
        message_in(lines[0]) + messages_in_lines(lines.drop_first())
    }
}

/// The messages that a buffer holds. A buffer that is not valid UTF-8 holds
/// none: the rest of a character may still be on its way. A buffer with a
/// line feed is read line by line, any other as one piece.
pub open spec fn messages_in(buffer: Seq<u8>) -> Seq<PartialPayloadView> {
    if !valid_utf8(buffer) {
        seq![]
    } else if has_line_feed(buffer) {
        messages_in_lines(lines_of(buffer))
    } else {
        message_in(buffer)
    }
}

/// What stays of a buffer once its messages are taken: nothing where it held
/// a message, even if an unfinished line followed it, and nothing where it
/// is longer than `MAX_BUFFER`; else all of it, to wait for more.
pub open spec fn remainder(buffer: Seq<u8>) -> Seq<u8> {
    if messages_in(buffer).len() > 0 || buffer.len() > MAX_BUFFER {
        seq![]
    } else {
        buffer
    }
}

/// The values of a list of messages.
pub open spec fn payload_views(messages: Seq<PartialPayload>) -> Seq<PartialPayloadView> {
    messages.map_values(|message: PartialPayload| message@)
}

/// `first_line_feed` is the one index that has a line feed, or the end, and
/// no line feed before it.
pub proof fn lemma_first_line_feed(bytes: Seq<u8>, end: int)
    requires
        0 <= end <= bytes.len(),
        forall|k: int| 0 <= k < end ==> bytes[k] != LINE_FEED,
        end < bytes.len() ==> bytes[end] == LINE_FEED,
    ensures
        first_line_feed(bytes) == end,
    decreases bytes.len(),
{
    if bytes.len() > 0 && end > 0 {
        let rest = bytes.drop_first();
        assert forall|k: int| 0 <= k < end - 1 implies rest[k] != LINE_FEED by {
            assert(rest[k] == bytes[k + 1]);
        }
        lemma_first_line_feed(rest, end - 1);
    }
}

/// The messages of a first line and of the lines after it, put together.
pub proof fn lemma_messages_in_lines_step(first: Seq<u8>, rest: Seq<Seq<u8>>)
    ensures
        messages_in_lines(seq![first] + rest) == message_in(first) + messages_in_lines(rest),
{
    let lines = seq![first] + rest;
    assert(lines.drop_first() =~= rest);
}

/// Two pieces of text with a line feed between them are read as two lines:
/// the messages are those of the first piece, without the carriage return
/// at its end, and then those of the second.
pub proof fn lemma_two_lines(first: Seq<u8>, second: Seq<u8>)
    requires
        !has_line_feed(first),
        !has_line_feed(second),
        second.len() > 0,
        valid_utf8(first + seq![LINE_FEED] + second),
    ensures
        messages_in(first + seq![LINE_FEED] + second) == message_in(
            without_carriage_return(first),
        ) + message_in(second),
{
    let buffer = first + seq![LINE_FEED] + second;
    lemma_no_line_feed(first);
    lemma_no_line_feed(second);
    assert forall|k: int| 0 <= k < first.len() implies buffer[k] != LINE_FEED by {
        assert(buffer[k] == first[k]);
    }
    lemma_first_line_feed(buffer, first.len() as int);
    assert(buffer.take(first.len() as int) =~= first);
    assert(buffer.skip(first.len() as int + 1) =~= second);
    assert(lines_of(second) =~= seq![second]);
    lemma_messages_in_lines_step(second, Seq::<Seq<u8>>::empty());
    assert(seq![second] + Seq::<Seq<u8>>::empty() =~= seq![second]);
    lemma_messages_in_lines_step(without_carriage_return(first), seq![second]);
    assert(messages_in_lines(Seq::<Seq<u8>>::empty()) =~= Seq::<PartialPayloadView>::empty());
    assert(message_in(second) + Seq::<PartialPayloadView>::empty() =~= message_in(second));
}

/// Text without a line feed has none at any index.
pub proof fn lemma_no_line_feed(bytes: Seq<u8>)
    requires
        !has_line_feed(bytes),
    ensures
        first_line_feed(bytes) == bytes.len(),
        forall|k: int| 0 <= k < bytes.len() ==> bytes[k] != LINE_FEED,
    decreases bytes.len(),
{
    if bytes.len() > 0 {
        let rest = bytes.drop_first();
        lemma_first_line_feed_bound(rest);
        lemma_no_line_feed(rest);
        assert forall|k: int| 0 <= k < bytes.len() implies bytes[k] != LINE_FEED by {
            if k > 0 {
                assert(bytes[k] == rest[k - 1]);
            }
        }
    }
}

/// The first line feed lies within the text or at its end.
pub proof fn lemma_first_line_feed_bound(bytes: Seq<u8>)
    ensures
        0 <= first_line_feed(bytes) <= bytes.len(),
    decreases bytes.len(),
{
    if bytes.len() > 0 && bytes[0] != LINE_FEED {
        lemma_first_line_feed_bound(bytes.drop_first());
    }
}

/// Writes add up: a buffer that holds no message and is within the limit
/// stays as it is, so the next write is read together with it.
pub proof fn lemma_writes_accumulate(buffer: Seq<u8>)
    requires
        messages_in(buffer).len() == 0,
        buffer.len() <= MAX_BUFFER,
    ensures
        remainder(buffer) == buffer,
{
}

/// A buffer that holds a message is emptied whole, whatever follows the
/// message in it.
pub proof fn lemma_message_empties_buffer(buffer: Seq<u8>)
    requires
        messages_in(buffer).len() > 0,
    ensures
        remainder(buffer).len() == 0,
{
}

/// A buffer beyond the limit that holds no message is dropped, and nothing
/// is handed out.
pub proof fn lemma_oversized_buffer_is_dropped(buffer: Seq<u8>)
    requires
        messages_in(buffer).len() == 0,
        buffer.len() > MAX_BUFFER,
    ensures
        remainder(buffer).len() == 0,
        messages_in(buffer) == Seq::<PartialPayloadView>::empty(),
{
    assert(messages_in(buffer) =~= Seq::<PartialPayloadView>::empty());
}

/// What stays of a buffer is never beyond the limit.
pub proof fn lemma_remainder_is_bounded(buffer: Seq<u8>)
    ensures
        remainder(buffer).len() <= MAX_BUFFER,
{
}

/// `std::str::from_utf8`: whether `bytes` are the UTF-8 encoding of some
/// text.
#[verifier::external_body]
fn is_utf8(bytes: &[u8]) -> (r: bool)
    ensures
        r == valid_utf8(bytes@),
{
    std::str::from_utf8(bytes).is_ok()
}

/// Finds the first line feed at or after `from`; the length of `bytes` where
/// there is none.
fn find_line_feed(bytes: &[u8], from: usize) -> (end: usize)
    requires
        from <= bytes@.len(),
    ensures
        from <= end <= bytes@.len(),
        end - from == first_line_feed(bytes@.skip(from as int)),
{
    let mut end: usize = from;
    while end < bytes.len() && bytes[end] != LINE_FEED
        invariant
            from <= end <= bytes@.len(),
            forall|k: int| from <= k < end ==> bytes@[k] != LINE_FEED,
        decreases bytes@.len() - end,
    {
        end += 1;
    }
    proof {
        lemma_first_line_feed(bytes@.skip(from as int), end - from);
    }
    end
}

/// Reads the messages of a buffer that has a line feed, line by line.
fn read_lines(buffer: &[u8]) -> (r: Vec<PartialPayload>)
    ensures
        payload_views(r@) == messages_in_lines(lines_of(buffer@)),
{
    let mut messages: Vec<PartialPayload> = Vec::new();
    let mut from: usize = 0;
    assert(buffer@.skip(0) =~= buffer@);
    while from < buffer.len()
        invariant
            from <= buffer@.len(),
            payload_views(messages@) + messages_in_lines(lines_of(buffer@.skip(from as int)))
                =~= messages_in_lines(lines_of(buffer@)),
        decreases buffer@.len() - from,
    {
        let ghost rest = buffer@.skip(from as int);
        let ghost before = messages@;
        let end = find_line_feed(buffer, from);
        if end < buffer.len() {
            let mut stop = end;
            if stop > from && buffer[stop - 1] == CARRIAGE_RETURN {
                stop = stop - 1;
            }
            let line = slice_subrange(buffer, from, stop);
            proof {
                assert(rest.take(end - from) =~= buffer@.subrange(from as int, end as int));
                assert(line@ =~= without_carriage_return(rest.take(end - from)));
                assert(rest.skip(end - from + 1) =~= buffer@.skip(end + 1));
                lemma_messages_in_lines_step(line@, lines_of(buffer@.skip(end + 1)));
            }
            match PartialPayload::parse(line) {
                Some(message) => {
                    messages.push(message);
                    assert(payload_views(messages@) =~= payload_views(before) + message_in(line@));
                },
                None => {
                    assert(message_in(line@) =~= Seq::<PartialPayloadView>::empty());
                },
            }
            from = end + 1;
        } else {
            let line = slice_subrange(buffer, from, end);
            proof {
                assert(line@ =~= rest);
                assert(lines_of(rest) =~= seq![rest]);
                assert(buffer@.skip(end as int).len() == 0);
                lemma_messages_in_lines_step(rest, Seq::<Seq<u8>>::empty());
                assert(seq![rest] + Seq::<Seq<u8>>::empty() =~= seq![rest]);
            }
            match PartialPayload::parse(line) {
                Some(message) => {
                    messages.push(message);
                    assert(payload_views(messages@) =~= payload_views(before) + message_in(line@));
                },
                None => {
                    assert(message_in(line@) =~= Seq::<PartialPayloadView>::empty());
                },
            }
            from = end;
        }
    }
    messages
}

/// Reads the messages that a buffer holds.
pub fn read_messages(buffer: &[u8]) -> (r: Vec<PartialPayload>)
    ensures
        payload_views(r@) == messages_in(buffer@),
{
    if !is_utf8(buffer) {
        let none: Vec<PartialPayload> = Vec::new();
        assert(payload_views(none@) =~= Seq::<PartialPayloadView>::empty());
        return none;
    }
    assert(buffer@.skip(0) =~= buffer@);
    let end = find_line_feed(buffer, 0);
    if end < buffer.len() {
        read_lines(buffer)
    } else {
        let mut messages: Vec<PartialPayload> = Vec::new();
        match PartialPayload::parse(buffer) {
            Some(message) => {
                messages.push(message);
                assert(payload_views(messages@) =~= message_in(buffer@));
            },
            None => {
                assert(payload_views(messages@) =~= message_in(buffer@));
            },
        }
        messages
    }
}

/// The state of the peripheral's one characteristic: the bytes gathered from
/// the writes so far, and the value that a read gives back.
#[derive(Debug, PartialEq, Eq)]
pub struct Reassembler {
    buffer: Vec<u8>,
    value: Vec<u8>,
}

/// What the peripheral is told by the Bluetooth stack.
#[derive(Debug, PartialEq, Eq)]
pub enum GattEvent {
    /// A central reads the characteristic.
    Read,
    /// A central writes these bytes to the characteristic.
    Write(Vec<u8>),
    /// Anything else, such as a central that went away.
    Other,
}

/// What the peripheral does about an event.
#[derive(Debug, PartialEq, Eq)]
pub enum GattAction {
    /// Answer the read with these bytes.
    Respond(Vec<u8>),
    /// Acknowledge the write, and hand these messages on.
    Forward(Vec<PartialPayload>),
    /// Start advertising again.
    Advertise,
}

impl Reassembler {
    #[verifier::type_invariant]
    spec fn bounded(self) -> bool {
        self.buffer@.len() <= MAX_BUFFER
    }

    /// The bytes gathered and not yet read as a message.
    pub closed spec fn buffered(self) -> Seq<u8> {
        self.buffer@
    }

    /// The bytes that a read gives back.
    pub closed spec fn echo(self) -> Seq<u8> {
        self.value@
    }

    /// A fresh state: nothing gathered, and `value` as the value in store.
    pub fn new(value: Vec<u8>) -> (r: Reassembler)
        ensures
            r.buffered() == Seq::<u8>::empty(),
            r.echo() == value@,
    {
        Reassembler { buffer: Vec::new(), value }
    }

    /// The bytes gathered and not yet read as a message; never more than
    /// `MAX_BUFFER`.
    pub fn buffer(&self) -> (r: &Vec<u8>)
        ensures
            r@ == self.buffered(),
            r@.len() <= MAX_BUFFER,
    {
        proof {
            use_type_invariant(self);
        }
        &self.buffer
    }

    /// Answers a read: the bytes of the last write as they came, whatever
    /// became of them in the buffer.
    pub fn on_read(&self) -> (r: Vec<u8>)
        ensures
            r@ == self.echo(),
    {
        self.value.clone()
    }

    /// Takes a write in. The bytes become the value in store and are added
    /// to the buffer. The messages that the buffer then holds are handed
    /// out, and the buffer keeps what `remainder` leaves of it.
    pub fn on_write(&mut self, value: &[u8]) -> (r: Vec<PartialPayload>)
        ensures
            payload_views(r@) == messages_in(old(self).buffered() + value@),
            final(self).buffered() == remainder(old(self).buffered() + value@),
            final(self).buffered().len() <= MAX_BUFFER,
            final(self).echo() == value@,
    {
        proof {
            use_type_invariant(&*self);
        }
        let mut joined: Vec<u8> = Vec::new();
        let mut echo: Vec<u8> = Vec::new();
        let mut i: usize = 0;
        while i < self.buffer.len()
            invariant
                i <= self.buffer@.len(),
                joined@ == self.buffer@.take(i as int),
            decreases self.buffer@.len() - i,
        {
            joined.push(self.buffer[i]);
            i += 1;
            assert(joined@ =~= self.buffer@.take(i as int));
        }
        assert(joined@ =~= self.buffer@);
        let mut k: usize = 0;
        while k < value.len()
            invariant
                k <= value@.len(),
                echo@ == value@.take(k as int),
                joined@ == self.buffer@ + value@.take(k as int),
            decreases value@.len() - k,
        {
            joined.push(value[k]);
            echo.push(value[k]);
            k += 1;
            assert(echo@ =~= value@.take(k as int));
            assert(joined@ =~= self.buffer@ + value@.take(k as int));
        }
        assert(value@.take(k as int) =~= value@);
        let messages = read_messages(joined.as_slice());
        assert(messages@.len() == payload_views(messages@).len());
        if messages.len() > 0 || joined.len() > MAX_BUFFER {
            joined.clear();
        }
        self.buffer = joined;
        self.value = echo;
        messages
    }

    /// Decides what to do about an event.
    pub fn step(&mut self, event: GattEvent) -> (r: GattAction)
        ensures
            match event {
                GattEvent::Read => r matches GattAction::Respond(bytes) && bytes@ == old(
                    self,
                ).echo() && *final(self) == *old(self),
                GattEvent::Write(value) => r matches GattAction::Forward(messages)
                    && payload_views(messages@) == messages_in(old(self).buffered() + value@)
                    && final(self).buffered() == remainder(old(self).buffered() + value@)
                    && final(self).echo() == value@,
                GattEvent::Other => r is Advertise && *final(self) == *old(self),
            },
    {
        match event {
            GattEvent::Read => GattAction::Respond(self.on_read()),
            GattEvent::Write(value) => GattAction::Forward(self.on_write(value.as_slice())),
            GattEvent::Other => GattAction::Advertise,
        }
    }
}

} // verus!
