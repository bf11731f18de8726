//! The server side of the IPC socket: where the socket lies, how bytes become
//! messages, which client is read when and how much, and who hears an event.
//!
//! The sockets themselves belong to the caller, which reads and writes as it is
//! told here.
use crate::ipc::IpcMessage;
use crate::json::JsonValue;
use crate::text::{begins_with, starts_with, str_eq, trim, trimmed, trimming_twice_is_once, views};
use vstd::prelude::*;
use vstd::utf8::{decode_utf8, encode_utf8, valid_utf8};

verus! {

/// How many bytes a client may leave without a complete message, or unread.
pub const MAX_CLIENT_BUF: usize = 1048576;

/// How many bytes and messages are taken from one client in one turn.
pub const MAX_READ_BYTES_PER_POLL: usize = 65536;

pub const MAX_MESSAGES_PER_POLL: usize = 64;

/// How many bytes and messages are taken from all clients in one turn.
pub const MAX_TOTAL_READ_BYTES_PER_POLL: usize = 262144;

pub const MAX_TOTAL_MESSAGES_PER_POLL: usize = 256;

/// How many clients there may be.
pub const MAX_CLIENTS: usize = 128;

/// How many clients are let in in one turn.
pub const MAX_ACCEPTS_PER_POLL: usize = 32;

pub const MAX_SUBSCRIPTION_TOPICS: usize = 64;

/// How many bytes a topic may have.
pub const MAX_SUBSCRIPTION_TOPIC_LEN: usize = 128;

/// How many bytes are read at once.
pub const READ_CHUNK: usize = 4096;

/// The byte that ends a message.
pub const NEWLINE: u8 = 10;

/// Where the first newline stands, from `i` on.
pub open spec fn newline_from(bytes: Seq<u8>, i: int) -> Option<int>
    decreases bytes.len() - i,
{
    if i < 0 || i >= bytes.len() {
        None
    } else if bytes[i] == NEWLINE {
        Some(i)
    } else {
        newline_from(bytes, i + 1)
    }
}

/// The first `limit` messages of a stream, and what is left of it. A message
/// ends at a newline; empty lines are skipped.
pub open spec fn taken(bytes: Seq<u8>, limit: nat) -> (Seq<Seq<u8>>, Seq<u8>)
    decreases bytes.len(),
{
    if limit == 0 {
        (Seq::empty(), bytes)
    } else {
        match newline_from(bytes, 0) {
            None => (Seq::empty(), bytes),
            Some(end) => if 0 <= end < bytes.len() {
                let rest = bytes.skip(end + 1);
                if end == 0 {
                    taken(rest, limit)
                } else {
                    let (later, left) = taken(rest, (limit - 1) as nat);
                    (Seq::empty().push(bytes.take(end)) + later, left)
                }
            } else {
                (Seq::empty(), bytes)
            },
        }
    }
}

proof fn newline_facts(bytes: Seq<u8>, i: int)
    requires
        0 <= i <= bytes.len(),
    ensures
        match newline_from(bytes, i) {
            Some(end) => i <= end < bytes.len() && bytes[end] == NEWLINE && forall|k: int|
                i <= k < end ==> bytes[k] != NEWLINE,
            None => forall|k: int| i <= k < bytes.len() ==> bytes[k] != NEWLINE,
        },
    decreases bytes.len() - i,
{
    if i < bytes.len() && bytes[i] != NEWLINE {
        newline_facts(bytes, i + 1);
    }
}

proof fn newline_at(bytes: Seq<u8>, i: int, end: int)
    requires
        0 <= i <= end < bytes.len(),
        bytes[end] == NEWLINE,
        forall|k: int| i <= k < end ==> bytes[k] != NEWLINE,
    ensures
        newline_from(bytes, i) == Some(end),
    decreases end - i,
{
    if i < end {
        newline_at(bytes, i + 1, end);
    }
}

proof fn no_newline(bytes: Seq<u8>, i: int)
    requires
        0 <= i <= bytes.len(),
        forall|k: int| i <= k < bytes.len() ==> bytes[k] != NEWLINE,
    ensures
        newline_from(bytes, i) is None,
    decreases bytes.len() - i,
{
    if i < bytes.len() {
        no_newline(bytes, i + 1);
    }
}

/// Taking messages in two turns is taking them in one.
pub proof fn turns_add_up(bytes: Seq<u8>, first: nat, second: nat)
    ensures
        ({
            let (a, rest) = taken(bytes, first);
            let (b, left) = taken(rest, second);
            taken(bytes, first + second) == (a + b, left)
        }),
    decreases bytes.len(),
{
    let (a, rest) = taken(bytes, first);
    let (b, left) = taken(rest, second);
    newline_facts(bytes, 0);
    if first == 0 {
        assert(a + b =~= b);
    } else {
        match newline_from(bytes, 0) {
            None => {
                assert(a + b =~= Seq::empty());
            },
            Some(end) => {
                let after = bytes.skip(end + 1);
                if end == 0 {
                    turns_add_up(after, first, second);
                } else {
                    turns_add_up(after, (first - 1) as nat, second);
                    let (later, r) = taken(after, (first - 1) as nat);
                    let (all, l) = taken(after, (first - 1 + second) as nat);
                    assert((first - 1) as nat + second == (first + second - 1) as nat);
                    let head = Seq::empty().push(bytes.take(end));
                    assert((head + later) + b =~= head + (later + b));
                }
            },
        }
    }
}

/// Bytes that arrive later change nothing of the messages that were taken, and
/// none is lost: what is taken of the longer stream is what was taken before,
/// and then what is taken of what was left together with the new bytes.
pub proof fn nothing_is_lost_between_reads(bytes: Seq<u8>, more: Seq<u8>, first: nat, second: nat)
    ensures
        ({
            let (a, rest) = taken(bytes, first);
            let (b, left) = taken(rest + more, second);
            a.len() == first ==> taken(bytes + more, first + second) == (a + b, left)
        }),
        ({
            let (a, rest) = taken(bytes, first);
            let (b, left) = taken(rest + more, (first - a.len()) as nat);
            a.len() <= first && taken(bytes + more, first) == (a + b, left)
        }),
    decreases bytes.len(),
{
    let (a, rest) = taken(bytes, first);
    let (b, left) = taken(rest + more, second);
    newline_facts(bytes, 0);
    if first == 0 {
        assert(a + b =~= b);
        let (c, l) = taken(rest + more, 0);
        assert(a + c =~= c);
    } else {
        match newline_from(bytes, 0) {
            None => {
                let (c, l) = taken(rest + more, first);
                assert(a + c =~= c);
            },
            Some(end) => {
                newline_at(bytes + more, 0, end);
                let after = bytes.skip(end + 1);
                assert((bytes + more).skip(end + 1) =~= after + more);
                assert((bytes + more).take(end) =~= bytes.take(end));
                if end == 0 {
                    nothing_is_lost_between_reads(after, more, first, second);
                } else {
                    nothing_is_lost_between_reads(after, more, (first - 1) as nat, second);
                    let head = Seq::empty().push(bytes.take(end));
                    let (later, r) = taken(after, (first - 1) as nat);
                    assert((first - 1) as nat + second == (first + second - 1) as nat);
                    assert((head + later) + b =~= head + (later + b));
                    let (c, l) = taken(r + more, (first - 1 - later.len()) as nat);
                    assert((first - 1 - later.len()) as nat == (first - a.len()) as nat);
                    assert((head + later) + c =~= head + (later + c));
                }
            },
        }
    }
}

/// What one side queues as a message is what the other side takes.
pub proof fn a_message_arrives_whole(message: Seq<u8>, rest: Seq<u8>, limit: nat)
    requires
        message.len() > 0,
        forall|k: int| 0 <= k < message.len() ==> message[k] != NEWLINE,
        limit > 0,
    ensures
        ({
            let (later, left) = taken(rest, (limit - 1) as nat);
            taken(message.push(NEWLINE) + rest, limit) == (Seq::empty().push(message) + later, left)
        }),
{
    let bytes = message.push(NEWLINE) + rest;
    newline_at(bytes, 0, message.len() as int);
    assert(bytes.skip(message.len() as int + 1) =~= rest);
    assert(bytes.take(message.len() as int) =~= message);
}

/// No message taken is empty or holds a newline, and no more are taken than
/// asked for.
pub proof fn messages_are_lines(bytes: Seq<u8>, limit: nat)
    ensures
        taken(bytes, limit).0.len() <= limit,
        forall|i: int|
            0 <= i < taken(bytes, limit).0.len() ==> (#[trigger] taken(bytes, limit).0[i]).len()
                > 0 && !taken(bytes, limit).0[i].contains(NEWLINE),
    decreases bytes.len(),
{
    newline_facts(bytes, 0);
    if limit > 0 {
        if let Some(end) = newline_from(bytes, 0) {
            let after = bytes.skip(end + 1);
            if end == 0 {
                messages_are_lines(after, limit);
            } else {
                messages_are_lines(after, (limit - 1) as nat);
                let later = taken(after, (limit - 1) as nat).0;
                let r = taken(bytes, limit).0;
                assert forall|i: int| 0 <= i < r.len() implies (#[trigger] r[i]).len() > 0
                    && !r[i].contains(NEWLINE) by {
                    if i == 0 {
                        assert(r[0] == bytes.take(end));
                    } else {
                        assert(r[i] == later[i - 1]);
                    }
                }
            }
        }
    }
}

/// The text of bytes, with replacement characters for what is no UTF-8.
pub uninterp spec fn lossy_text(bytes: Seq<u8>) -> Seq<char>;

/// Calls `String::from_utf8_lossy` of std. The text depends on the bytes alone,
/// and is what they encode where they are UTF-8; which characters stand for
/// what is not is left to std.
#[verifier::external_body]
fn text_of_bytes(bytes: &Vec<u8>) -> (r: String)
    ensures
        r@ == lossy_text(bytes@),
        valid_utf8(bytes@) ==> r@ == decode_utf8(bytes@),
{
    String::from_utf8_lossy(bytes).into_owned()
}

/// What came from one client and what is to go to it.
#[derive(Debug)]
pub struct IpcClient {
    buf: Vec<u8>,
    /// First byte that belongs to no message taken.
    buf_start: usize,
    /// First byte that was not looked at for a newline.
    scan_pos: usize,
    out_buf: Vec<u8>,
    subscriptions: Vec<String>,
    read_closed: bool,
}

/// The texts of messages.
pub open spec fn texts(messages: Seq<Seq<u8>>) -> Seq<Seq<char>> {
    Seq::new(messages.len(), |i: int| lossy_text(messages[i]))
}

/// How many bytes of messages taken still take room once the buffer was looked
/// at: none where nothing is pending, or where freeing is worth it.
pub open spec fn room_kept(consumed: int, pending: int) -> int {
    if pending == 0 || consumed >= 65536 || consumed >= (consumed + pending) / 2 {
        0
    } else {
        consumed
    }
}

/// Messages taken never keep much room, neither in all nor beside what is
/// pending.
pub proof fn taken_room_is_freed(consumed: int, pending: int)
    requires
        0 <= consumed,
        0 <= pending,
    ensures
        0 <= room_kept(consumed, pending) < 65536,
        room_kept(consumed, pending) <= pending,
{
}

impl IpcClient {
    /// The bytes that belong to no message taken.
    pub closed spec fn pending(self) -> Seq<u8> {
        self.buf@.skip(self.buf_start as int)
    }

    /// How many bytes of messages taken still take room.
    pub closed spec fn consumed(self) -> int {
        self.buf_start as int
    }

    /// The bytes to go out.
    pub closed spec fn outgoing(self) -> Seq<u8> {
        self.out_buf@
    }

    /// The topics subscribed to.
    pub closed spec fn topics(self) -> Seq<Seq<char>> {
        views(self.subscriptions@)
    }

    /// Whether the client sends no more.
    pub closed spec fn closed(self) -> bool {
        self.read_closed
    }

    /// The positions are inside the buffer, and no newline was passed over.
    pub closed spec fn wf(self) -> bool {
        &&& self.buf_start <= self.buf@.len()
        &&& self.scan_pos <= self.buf@.len()
        &&& forall|k: int| self.buf_start <= k < self.scan_pos ==> self.buf@[k] != NEWLINE
    }

    /// A client that has sent nothing.
    pub fn new() -> (r: IpcClient)
        ensures
            r.wf(),
            r.pending() == Seq::<u8>::empty(),
            r.consumed() == 0,
            r.outgoing() == Seq::<u8>::empty(),
            r.topics() == Seq::<Seq<char>>::empty(),
            !r.closed(),
    {
        let r = IpcClient {
            buf: Vec::new(),
            buf_start: 0,
            scan_pos: 0,
            out_buf: Vec::new(),
            subscriptions: Vec::new(),
            read_closed: false,
        };
        assert(r.pending() =~= Seq::empty());
        assert(r.topics() =~= Seq::empty());
        r
    }

    /// Takes up to `limit` messages. A message that came in pieces is looked at
    /// once.
    pub fn take_complete_messages(&mut self, limit: usize) -> (r: Vec<String>)
        requires
            old(self).wf(),
        ensures
            final(self).wf(),
            views(r@) == texts(taken(old(self).pending(), limit as nat).0),
            final(self).pending() == taken(old(self).pending(), limit as nat).1,
            final(self).consumed() + final(self).pending().len() == old(self).consumed() + old(
                self,
            ).pending().len(),
            final(self).outgoing() == old(self).outgoing(),
            final(self).topics() == old(self).topics(),
            final(self).closed() == old(self).closed(),
    {
        let mut messages: Vec<String> = Vec::new();
        assert(views(messages@) =~= Seq::empty());
        let ghost whole = taken(self.pending(), limit as nat);
        if limit == 0 {
            assert(texts(whole.0) =~= Seq::empty());
            return messages;
        }
        let ghost mut got: Seq<Seq<u8>> = Seq::empty();
        let mut line_start: usize = self.buf_start;
        let mut scan_pos: usize = if self.scan_pos > line_start { self.scan_pos } else { line_start };
        let n: usize = self.buf.len();
        proof {
            assert(self.buf@.skip(line_start as int) == self.pending());
            assert(got + whole.0 =~= whole.0);
            assert(texts(got) =~= views(messages@));
        }
        while scan_pos < n && messages.len() < limit
            invariant
                n == self.buf@.len(),
                self.buf_start <= line_start <= scan_pos <= n,
                forall|k: int| line_start <= k < scan_pos ==> self.buf@[k] != NEWLINE,
                messages@.len() == got.len() <= limit,
                views(messages@) == texts(got),
                whole == ({
                    let (later, left) = taken(
                        self.buf@.skip(line_start as int),
                        (limit - got.len()) as nat,
                    );
                    (got + later, left)
                }),
            decreases n - scan_pos,
        {
            if self.buf[scan_pos] != NEWLINE {
                scan_pos = scan_pos + 1;
            } else {
                let ghost bytes = self.buf@.skip(line_start as int);
                let ghost end = scan_pos - line_start;
                proof {
                    assert forall|k: int| 0 <= k < end implies bytes[k] != NEWLINE by {
                        assert(bytes[k] == self.buf@[line_start + k]);
                    }
                    newline_at(bytes, 0, end);
                    assert(bytes.skip(end + 1) =~= self.buf@.skip(scan_pos + 1));
                }
                if scan_pos > line_start {
                    let line = bytes_between(&self.buf, line_start, scan_pos);
                    proof {
                        assert(line@ =~= bytes.take(end));
                        let (later, left) = taken(
                            bytes.skip(end + 1),
                            (limit - got.len() - 1) as nat,
                        );
                        let before = got;
                        let old_messages = messages@;
                        got = got.push(line@);
                        assert(before + (Seq::empty().push(line@) + later) =~= got + later);
                        assert(texts(got) =~= texts(before).push(lossy_text(line@)));
                    }
                    let text = text_of_bytes(&line);
                    let ghost old_messages = messages@;
                    messages.push(text);
                    assert(views(messages@) =~= views(old_messages).push(text@));
                }
                line_start = scan_pos + 1;
                scan_pos = line_start;
            }
        }
        proof {
            let bytes = self.buf@.skip(line_start as int);
            if messages.len() < limit {
                assert forall|k: int| 0 <= k < bytes.len() implies bytes[k] != NEWLINE by {
                    assert(bytes[k] == self.buf@[line_start + k]);
                }
                no_newline(bytes, 0);
            }
            assert(got + Seq::empty() =~= got);
        }
        self.buf_start = line_start;
        self.scan_pos = scan_pos;
        messages
    }

    /// Whether a message is complete.
    pub fn has_buffered_frame(&self) -> (r: bool)
        requires
            self.wf(),
        ensures
            r == self.pending().contains(NEWLINE),
    {
        let n: usize = self.buf.len();
        let mut i: usize = if self.scan_pos > self.buf_start {
            self.scan_pos
        } else {
            self.buf_start
        };
        while i < n
            invariant
                self.wf(),
                n == self.buf@.len(),
                self.buf_start <= i <= n,
                forall|k: int| self.buf_start <= k < i ==> self.buf@[k] != NEWLINE,
            decreases n - i,
        {
            if self.buf[i] == NEWLINE {
                assert(self.pending()[i - self.buf_start] == NEWLINE);
                return true;
            }
            i = i + 1;
        }
        assert forall|k: int| 0 <= k < self.pending().len() implies self.pending()[k]
            != NEWLINE by {
            assert(self.pending()[k] == self.buf@[self.buf_start + k]);
        }
        false
    }

    /// Frees the room of messages taken, once that is worth it.
    pub fn compact_input_buffer(&mut self)
        requires
            old(self).wf(),
        ensures
            final(self).wf(),
            final(self).pending() == old(self).pending(),
            final(self).consumed() == room_kept(
                old(self).consumed(),
                old(self).pending().len() as int,
            ),
            final(self).outgoing() == old(self).outgoing(),
            final(self).topics() == old(self).topics(),
            final(self).closed() == old(self).closed(),
    {
        let ghost before = self.pending();
        if self.buf_start == 0 {
            return;
        }
        let n: usize = self.buf.len();
        let consumed: usize = self.buf_start;
        if consumed >= n || consumed >= 65536 || consumed >= n / 2 {
            let ghost old_buf = self.buf@;
            let left: usize = n - consumed;
            let mut i: usize = 0;
            while i < left
                invariant
                    i <= left,
                    left + consumed == n,
                    self.buf@.len() == n == old_buf.len(),
                    forall|k: int| 0 <= k < i ==> self.buf@[k] == old_buf[consumed + k],
                    forall|k: int| i <= k < n ==> self.buf@[k] == old_buf[k],
                    self.out_buf@ == old(self).out_buf@,
                    self.subscriptions@ == old(self).subscriptions@,
                    self.read_closed == old(self).read_closed,
                    self.scan_pos == old(self).scan_pos,
                decreases left - i,
            {
                let b: u8 = self.buf[consumed + i];
                self.buf.set(i, b);
                i = i + 1;
            }
            self.buf.truncate(left);
            self.buf_start = 0;
            self.scan_pos = if self.scan_pos > consumed { self.scan_pos - consumed } else { 0 };
            assert(self.pending() =~= before);
        }
    }
}

fn bytes_between(buf: &Vec<u8>, from: usize, to: usize) -> (r: Vec<u8>)
    requires
        from <= to <= buf@.len(),
    ensures
        r@ == buf@.subrange(from as int, to as int),
{
    let mut r: Vec<u8> = Vec::new();
    let mut i: usize = from;
    while i < to
        invariant
            from <= i <= to <= buf@.len(),
            r@ == buf@.subrange(from as int, i as int),
        decreases to - i,
    {
        r.push(buf[i]);
        assert(buf@.subrange(from as int, i + 1) =~= buf@.subrange(from as int, i as int).push(
            buf@[i as int],
        ));
        i = i + 1;
    }
    r
}

/// What to do with a client after its buffered messages were taken.
#[derive(Debug, Clone, Copy, PartialEq, Eq, Structural)]
pub enum ReadStep {
    /// Nothing more in this turn.
    Done,
    /// It sends no more and has no message left: let it go.
    Disconnect,
    /// Read from its socket.
    Read,
}

/// How many messages of a client are taken in a turn with this budget.
pub open spec fn message_limit_of(budget: int) -> int {
    if budget <= MAX_MESSAGES_PER_POLL {
        budget
    } else {
        MAX_MESSAGES_PER_POLL as int
    }
}

/// How many messages of a client are taken in a turn with this budget.
pub fn message_limit(message_budget: usize) -> (r: usize)
    ensures
        r == message_limit_of(message_budget as int),
{
    if message_budget <= MAX_MESSAGES_PER_POLL { message_budget } else { MAX_MESSAGES_PER_POLL }
}

/// How many bytes to read next in a turn with this budget: a chunk, or what is
/// left of the budget, and none once it is used up.
pub open spec fn chunk_of(budget: int, read: int) -> int {
    let limit = if budget <= MAX_READ_BYTES_PER_POLL {
        budget
    } else {
        MAX_READ_BYTES_PER_POLL as int
    };
    if read >= limit {
        0
    } else if limit - read <= READ_CHUNK {
        limit - read
    } else {
        READ_CHUNK as int
    }
}

/// How many bytes to read next.
pub fn next_chunk(read_byte_budget: usize, bytes_read: usize) -> (r: usize)
    ensures
        r == chunk_of(read_byte_budget as int, bytes_read as int),
{
    let limit: usize = if read_byte_budget <= MAX_READ_BYTES_PER_POLL {
        read_byte_budget
    } else {
        MAX_READ_BYTES_PER_POLL
    };
    if bytes_read >= limit {
        0
    } else if limit - bytes_read <= READ_CHUNK {
        limit - bytes_read
    } else {
        READ_CHUNK
    }
}

/// Reading by chunks never exceeds the budget of a client.
pub proof fn chunks_stay_in_budget(budget: int, read: int)
    requires
        0 <= read,
        0 <= budget,
    ensures
        0 <= chunk_of(budget, read),
        read <= MAX_READ_BYTES_PER_POLL ==> read + chunk_of(budget, read)
            <= MAX_READ_BYTES_PER_POLL,
        read <= budget ==> read + chunk_of(budget, read) <= budget,
{
}

impl IpcClient {
    /// Begins a turn: takes buffered messages, and says whether to read more.
    pub fn begin_read(&mut self, message_budget: usize) -> (r: (Vec<String>, ReadStep))
        requires
            old(self).wf(),
        ensures
            final(self).wf(),
            ({
                let limit = message_limit_of(message_budget as int) as nat;
                let (messages, rest) = taken(old(self).pending(), limit);
                &&& views(r.0@) == texts(messages)
                &&& final(self).pending() == rest
                &&& final(self).consumed() == if limit == 0 {
                    old(self).consumed()
                } else {
                    room_kept(
                        old(self).consumed() + old(self).pending().len() - rest.len(),
                        rest.len() as int,
                    )
                }
                &&& r.1 == (if messages.len() >= limit {
                    ReadStep::Done
                } else if !old(self).closed() {
                    ReadStep::Read
                } else if messages.len() == 0 {
                    ReadStep::Disconnect
                } else {
                    ReadStep::Done
                })
            }),
            final(self).outgoing() == old(self).outgoing(),
            final(self).topics() == old(self).topics(),
            final(self).closed() == old(self).closed(),
    {
        let limit: usize = message_limit(message_budget);
        let ghost before = self.pending();
        if limit == 0 {
            let none: Vec<String> = Vec::new();
            assert(views(none@) =~= texts(taken(before, 0).0));
            return (none, ReadStep::Done);
        }
        let messages = self.take_complete_messages(limit);
        assert(views(messages@).len() == messages@.len());
        assert(texts(taken(before, limit as nat).0).len() == taken(before, limit as nat).0.len());
        self.compact_input_buffer();
        let step = if messages.len() >= limit {
            ReadStep::Done
        } else if !self.read_closed {
            ReadStep::Read
        } else if messages.len() == 0 {
            ReadStep::Disconnect
        } else {
            ReadStep::Done
        };
        (messages, step)
    }

    /// Takes in bytes of the socket. Returns whether the client stays within
    /// its limit; one that does not is let go.
    pub fn receive(&mut self, bytes: &[u8]) -> (r: bool)
        requires
            old(self).wf(),
            old(self).consumed() + old(self).pending().len() + bytes@.len() <= usize::MAX,
        ensures
            final(self).wf(),
            final(self).pending() == old(self).pending() + bytes@,
            final(self).consumed() == old(self).consumed(),
            r == (final(self).pending().len() <= MAX_CLIENT_BUF),
            final(self).outgoing() == old(self).outgoing(),
            final(self).topics() == old(self).topics(),
            final(self).closed() == old(self).closed(),
    {
        let ghost before = self.buf@;
        let mut i: usize = 0;
        while i < bytes.len()
            invariant
                i <= bytes@.len(),
                self.buf@ == before + bytes@.take(i as int),
                self.buf_start == old(self).buf_start,
                self.scan_pos == old(self).scan_pos,
                self.out_buf@ == old(self).out_buf@,
                self.subscriptions@ == old(self).subscriptions@,
                self.read_closed == old(self).read_closed,
            decreases bytes@.len() - i,
        {
            self.buf.push(bytes[i]);
            assert(self.buf@ =~= before + bytes@.take(i + 1));
            i = i + 1;
        }
        proof {
            assert(bytes@.take(i as int) =~= bytes@);
            assert(self.pending() =~= old(self).pending() + bytes@);
        }
        self.buf.len() - self.buf_start <= MAX_CLIENT_BUF
    }

    /// Notes that the client sends no more.
    pub fn close(&mut self)
        requires
            old(self).wf(),
        ensures
            final(self).wf(),
            final(self).closed(),
            final(self).pending() == old(self).pending(),
            final(self).consumed() == old(self).consumed(),
            final(self).outgoing() == old(self).outgoing(),
            final(self).topics() == old(self).topics(),
    {
        self.read_closed = true;
    }

    /// Ends a turn that read from the socket: takes what became complete after
    /// `messages`. `None` means that the client sends no more and had nothing
    /// to say.
    pub fn finish_read(&mut self, messages: Vec<String>, message_budget: usize) -> (r: Option<
        Vec<String>,
    >)
        requires
            old(self).wf(),
            messages@.len() <= message_limit_of(message_budget as int),
        ensures
            final(self).wf(),
            ({
                let room = (message_limit_of(message_budget as int) - messages@.len()) as nat;
                let (more, rest) = taken(old(self).pending(), room);
                let all = views(messages@) + texts(more);
                &&& final(self).pending() == rest
                &&& final(self).consumed() == room_kept(
                    old(self).consumed() + old(self).pending().len() - rest.len(),
                    rest.len() as int,
                )
                &&& match r {
                    Some(m) => views(m@) == all && !(all.len() == 0 && old(self).closed()),
                    None => all.len() == 0 && old(self).closed(),
                }
            }),
            final(self).outgoing() == old(self).outgoing(),
            final(self).topics() == old(self).topics(),
            final(self).closed() == old(self).closed(),
    {
        let limit: usize = message_limit(message_budget);
        let ghost before = messages@;
        let mut all = messages;
        let more = self.take_complete_messages(limit - all.len());
        self.compact_input_buffer();
        let mut i: usize = 0;
        while i < more.len()
            invariant
                i <= more@.len(),
                views(all@) == views(before) + views(more@).take(i as int),
            decreases more@.len() - i,
        {
            let ghost was = all@;
            all.push(more[i].clone());
            assert(views(all@) =~= views(was).push(more@[i as int]@));
            assert(views(before) + views(more@).take(i + 1) =~= (views(before) + views(more@).take(
                i as int,
            )).push(views(more@)[i as int]));
            i = i + 1;
        }
        assert(views(more@).take(i as int) =~= views(more@));
        assert(views(all@).len() == all@.len());
        if all.len() == 0 && self.read_closed { None } else { Some(all) }
    }

    /// Queues a message.
    pub fn queue(&mut self, json: &str)
        requires
            old(self).wf(),
        ensures
            final(self).wf(),
            final(self).outgoing() == old(self).outgoing() + encode_utf8(json@).push(NEWLINE),
            final(self).pending() == old(self).pending(),
            final(self).consumed() == old(self).consumed(),
            final(self).topics() == old(self).topics(),
            final(self).closed() == old(self).closed(),
    {
        let bytes = json.as_bytes();
        let ghost before = self.out_buf@;
        let mut i: usize = 0;
        while i < bytes.len()
            invariant
                i <= bytes@.len(),
                self.out_buf@ == before + bytes@.take(i as int),
                self.buf@ == old(self).buf@,
                self.buf_start == old(self).buf_start,
                self.scan_pos == old(self).scan_pos,
                self.subscriptions@ == old(self).subscriptions@,
                self.read_closed == old(self).read_closed,
            decreases bytes@.len() - i,
        {
            self.out_buf.push(bytes[i]);
            assert(self.out_buf@ =~= before + bytes@.take(i + 1));
            i = i + 1;
        }
        self.out_buf.push(NEWLINE);
        proof {
            assert(bytes@.take(i as int) =~= bytes@);
            assert(self.out_buf@ =~= before + bytes@.push(NEWLINE));
        }
    }

    /// The bytes to go out.
    pub fn unsent(&self) -> (r: &Vec<u8>)
        ensures
            r@ == self.outgoing(),
    {
        &self.out_buf
    }

    /// Notes that the socket took the first `n` bytes.
    pub fn sent(&mut self, n: usize)
        requires
            old(self).wf(),
            n <= old(self).outgoing().len(),
        ensures
            final(self).wf(),
            final(self).outgoing() == old(self).outgoing().skip(n as int),
            final(self).pending() == old(self).pending(),
            final(self).consumed() == old(self).consumed(),
            final(self).topics() == old(self).topics(),
            final(self).closed() == old(self).closed(),
    {
        let rest = bytes_between(&self.out_buf, n, self.out_buf.len());
        assert(rest@ =~= self.out_buf@.skip(n as int));
        self.out_buf = rest;
    }

    /// Whether what could not be sent stays within the limit; a client that
    /// does not read is let go.
    pub fn keeps_up(&self) -> (r: bool)
        ensures
            r == (self.outgoing().len() <= MAX_CLIENT_BUF),
    {
        self.out_buf.len() <= MAX_CLIENT_BUF
    }

    /// Whether the client should be told when its socket can be written.
    pub fn wants_write(&self) -> (r: bool)
        ensures
            r == (self.outgoing().len() > 0),
    {
        self.out_buf.len() > 0
    }

    /// Replaces the topics subscribed to.
    pub fn subscribe(&mut self, topics: &Vec<String>)
        requires
            old(self).wf(),
        ensures
            final(self).wf(),
            final(self).topics() == normal_topics(views(topics@), topics@.len() as int),
            final(self).pending() == old(self).pending(),
            final(self).consumed() == old(self).consumed(),
            final(self).outgoing() == old(self).outgoing(),
            final(self).closed() == old(self).closed(),
    {
        self.subscriptions = normalize_subscriptions(topics);
    }

    /// Whether the client wants an event.
    pub fn is_subscribed(&self, event_type: &str) -> (r: bool)
        ensures
            r == (exists|i: int|
                0 <= i < self.topics().len() && matches_topic(
                    #[trigger] self.topics()[i],
                    event_type@,
                )),
    {
        let mut i: usize = 0;
        while i < self.subscriptions.len()
            invariant
                i <= self.subscriptions@.len(),
                forall|j: int|
                    0 <= j < i ==> !matches_topic(#[trigger] self.topics()[j], event_type@),
            decreases self.subscriptions@.len() - i,
        {
            if topic_matches(self.subscriptions[i].as_str(), event_type) {
                assert(matches_topic(self.topics()[i as int], event_type@));
                return true;
            }
            i = i + 1;
        }
        false
    }
}

/// Whether a topic covers an event: all events, that event, or those below it.
pub open spec fn matches_topic(topic: Seq<char>, event: Seq<char>) -> bool {
    ||| topic == "*"@
    ||| topic == event
    ||| begins_with(event, topic) && event.len() > topic.len() && event[topic.len() as int] == '/'
}

fn topic_matches(topic: &str, event: &str) -> (r: bool)
    ensures
        r == matches_topic(topic@, event@),
{
    if str_eq(topic, "*") || str_eq(topic, event) {
        return true;
    }
    if !starts_with(event, topic) {
        return false;
    }
    let n: usize = topic.unicode_len();
    n < event.unicode_len() && event.get_char(n) == '/'
}

/// A topic covers an event below it only at a boundary between names.
pub proof fn topics_end_at_boundaries(topic: Seq<char>, event: Seq<char>)
    requires
        topic != "*"@,
        matches_topic(topic, event),
    ensures
        event == topic || begins_with(event, topic.push('/')),
{
    if event != topic {
        let n = topic.len() as int;
        assert(event.take(n) == topic);
        assert(event.take(n + 1) =~= event.take(n).push(event[n]));
    }
}

/// Whether a topic is taken after those in `before`.
pub open spec fn new_topic(before: Seq<Seq<char>>, topic: Seq<char>) -> bool {
    &&& before.len() < MAX_SUBSCRIPTION_TOPICS
    &&& topic.len() > 0
    &&& encode_utf8(topic).len() <= MAX_SUBSCRIPTION_TOPIC_LEN
    &&& !before.contains(topic)
}

/// The topics of a subscription, from the first `n` asked for: trimmed, without
/// empty, overlong and repeated ones, and no more than allowed.
pub open spec fn normal_topics(asked: Seq<Seq<char>>, n: int) -> Seq<Seq<char>>
    decreases n,
{
    if n <= 0 {
        Seq::empty()
    } else {
        let before = normal_topics(asked, n - 1);
        if new_topic(before, trimmed(asked[n - 1])) {
            before.push(trimmed(asked[n - 1]))
        } else {
            before
        }
    }
}

fn lists(topics: &Vec<String>, topic: &str) -> (r: bool)
    ensures
        r == views(topics@).contains(topic@),
{
    let mut i: usize = 0;
    while i < topics.len()
        invariant
            i <= topics@.len(),
            forall|j: int| 0 <= j < i ==> views(topics@)[j] != topic@,
        decreases topics@.len() - i,
    {
        if str_eq(topics[i].as_str(), topic) {
            assert(views(topics@)[i as int] == topic@);
            return true;
        }
        i = i + 1;
    }
    false
}

/// The topics of a subscription.
pub fn normalize_subscriptions(topics: &Vec<String>) -> (r: Vec<String>)
    ensures
        views(r@) == normal_topics(views(topics@), topics@.len() as int),
{
    let mut normal: Vec<String> = Vec::new();
    assert(views(normal@) =~= Seq::empty());
    let mut i: usize = 0;
    while i < topics.len()
        invariant
            i <= topics@.len(),
            views(normal@) == normal_topics(views(topics@), i as int),
        decreases topics@.len() - i,
    {
        let topic = trim(topics[i].as_str());
        assert(views(normal@).len() == normal@.len());
        let bytes = topic.as_str().as_bytes();
        if normal.len() < MAX_SUBSCRIPTION_TOPICS && topic.as_str().unicode_len() > 0
            && bytes.len() <= MAX_SUBSCRIPTION_TOPIC_LEN && !lists(&normal, topic.as_str()) {
            let ghost before = normal@;
            normal.push(topic);
            assert(views(normal@) =~= views(before).push(topic@));
        }
        i = i + 1;
    }
    normal
}

/// A subscription is bounded, and its topics are trimmed, not empty and all
/// different.
pub proof fn subscriptions_are_bounded(asked: Seq<Seq<char>>, n: int)
    requires
        0 <= n <= asked.len(),
    ensures
        normal_topics(asked, n).len() <= MAX_SUBSCRIPTION_TOPICS,
        normal_topics(asked, n).no_duplicates(),
        forall|i: int|
            0 <= i < normal_topics(asked, n).len() ==> {
                let topic = #[trigger] normal_topics(asked, n)[i];
                &&& 0 < topic.len()
                &&& trimmed(topic) == topic
                &&& encode_utf8(topic).len() <= MAX_SUBSCRIPTION_TOPIC_LEN
            },
        forall|i: int|
            0 <= i < normal_topics(asked, n).len() ==> exists|k: int|
                0 <= k < n && trimmed(#[trigger] asked[k]) == #[trigger] normal_topics(asked, n)[i],
    decreases n,
{
    if n > 0 {
        subscriptions_are_bounded(asked, n - 1);
        let before = normal_topics(asked, n - 1);
        let after = normal_topics(asked, n);
        assert forall|i: int| 0 <= i < after.len() implies exists|k: int|
            0 <= k < n && trimmed(#[trigger] asked[k]) == #[trigger] after[i] by {
            if i < before.len() {
                assert(after[i] == before[i]);
                let k = choose|k: int|
                    0 <= k < n - 1 && trimmed(#[trigger] asked[k]) == before[i];
                assert(trimmed(asked[k]) == after[i]);
            } else {
                assert(trimmed(asked[n - 1]) == after[i]);
            }
        }
        assert forall|i: int| 0 <= i < after.len() implies ({
            let topic = #[trigger] after[i];
            &&& 0 < topic.len()
            &&& trimmed(topic) == topic
            &&& encode_utf8(topic).len() <= MAX_SUBSCRIPTION_TOPIC_LEN
        }) by {
            if i < before.len() {
                assert(after[i] == before[i]);
            } else {
                trimming_twice_is_once(asked[n - 1]);
            }
        }
        assert forall|i: int, j: int| 0 <= i < j < after.len() implies after[i] != after[j] by {
            if j == before.len() {
                assert(before.contains(before[i]));
            } else {
                assert(before[i] != before[j]);
            }
        }
    }
}

/// The topics of a subscription, asked for again, are the same topics.
pub proof fn normal_topics_stay(asked: Seq<Seq<char>>)
    ensures
        ({
            let topics = normal_topics(asked, asked.len() as int);
            normal_topics(topics, topics.len() as int) == topics
        }),
{
    let topics = normal_topics(asked, asked.len() as int);
    normal_prefix_stays(asked, topics.len() as int);
    assert(topics.take(topics.len() as int) == topics);
}

proof fn normal_prefix_stays(asked: Seq<Seq<char>>, n: int)
    requires
        0 <= n <= normal_topics(asked, asked.len() as int).len(),
    ensures
        ({
            let topics = normal_topics(asked, asked.len() as int);
            normal_topics(topics, n) == topics.take(n)
        }),
    decreases n,
{
    let topics = normal_topics(asked, asked.len() as int);
    if n > 0 {
        normal_prefix_stays(asked, n - 1);
        subscriptions_are_bounded(asked, asked.len() as int);
        let before = topics.take(n - 1);
        let topic = topics[n - 1];
        if before.contains(topic) {
            let k = choose|k: int| 0 <= k < before.len() && before[k] == topic;
            assert(topics[k] == topics[n - 1]);
        }
        assert(new_topic(before, trimmed(topic)));
        assert(before.push(topic) == topics.take(n));
    } else {
        assert(topics.take(0) == Seq::<Seq<char>>::empty());
    }
}

/// What a turn over all clients has taken so far.
#[derive(Debug, Clone, Copy, PartialEq, Eq, Structural)]
pub struct PollBudget {
    pub messages_seen: usize,
    pub bytes_read: usize,
}

impl PollBudget {
    /// Nothing was taken beyond what a turn allows.
    pub open spec fn wf(self) -> bool {
        &&& self.messages_seen <= MAX_TOTAL_MESSAGES_PER_POLL
        &&& self.bytes_read <= MAX_TOTAL_READ_BYTES_PER_POLL
    }

    /// A turn begins.
    pub fn new() -> (r: PollBudget)
        ensures
            r == (PollBudget { messages_seen: 0, bytes_read: 0 }),
            r.wf(),
    {
        PollBudget { messages_seen: 0, bytes_read: 0 }
    }

    /// Whether the turn has to end.
    pub fn exhausted(&self) -> (r: bool)
        ensures
            r == (self.messages_seen == MAX_TOTAL_MESSAGES_PER_POLL || self.bytes_read
                == MAX_TOTAL_READ_BYTES_PER_POLL),
    {
        self.messages_seen == MAX_TOTAL_MESSAGES_PER_POLL || self.bytes_read
            == MAX_TOTAL_READ_BYTES_PER_POLL
    }

    /// How many messages may still be taken.
    pub fn remaining_messages(&self) -> (r: usize)
        requires
            self.wf(),
        ensures
            r == MAX_TOTAL_MESSAGES_PER_POLL - self.messages_seen,
    {
        MAX_TOTAL_MESSAGES_PER_POLL - self.messages_seen
    }

    /// How many bytes may still be read.
    pub fn remaining_bytes(&self) -> (r: usize)
        requires
            self.wf(),
        ensures
            r == MAX_TOTAL_READ_BYTES_PER_POLL - self.bytes_read,
    {
        MAX_TOTAL_READ_BYTES_PER_POLL - self.bytes_read
    }

    /// Counts what was taken from one client: every message, also one that
    /// cannot be understood.
    pub fn charge(&mut self, messages: usize, bytes: usize)
        requires
            old(self).wf(),
            messages <= MAX_TOTAL_MESSAGES_PER_POLL - old(self).messages_seen,
            bytes <= MAX_TOTAL_READ_BYTES_PER_POLL - old(self).bytes_read,
        ensures
            final(self).wf(),
            final(self).messages_seen == old(self).messages_seen + messages,
            final(self).bytes_read == old(self).bytes_read + bytes,
    {
        self.messages_seen = self.messages_seen + messages;
        self.bytes_read = self.bytes_read + bytes;
    }
}

/// Whether client `a` is read before client `b` in a turn that begins at
/// `next`: those from `next` on come first, and each group in ascending order.
pub open spec fn reads_before(next: u64, a: u64, b: u64) -> bool {
    if (a < next) == (b < next) {
        a < b
    } else {
        b < next
    }
}

/// The clients stand in the order in which a turn that begins at `next` reads
/// them.
pub open spec fn in_turn(next: u64, order: Seq<u64>) -> bool {
    forall|i: int, j: int|
        0 <= i < j < order.len() ==> !reads_before(next, #[trigger] order[j], #[trigger] order[i])
}

fn comes_first(next: u64, a: u64, b: u64) -> (r: bool)
    ensures
        r == reads_before(next, a, b),
{
    if (a < next) == (b < next) { a < b } else { b < next }
}

/// The order in which a turn that begins at `next` reads the clients.
pub fn poll_order(ids: &Vec<u64>, next: u64) -> (r: Vec<u64>)
    ensures
        r@.to_multiset() == ids@.to_multiset(),
        in_turn(next, r@),
{
    let mut order: Vec<u64> = Vec::new();
    let mut i: usize = 0;
    assert(ids@.take(0) =~= Seq::empty());
    while i < ids.len()
        invariant
            i <= ids@.len(),
            order@.to_multiset() == ids@.take(i as int).to_multiset(),
            order@.len() == i,
            in_turn(next, order@),
        decreases ids@.len() - i,
    {
        let id: u64 = ids[i];
        let ghost before = order@;
        let mut p: usize = order.len();
        while p > 0 && comes_first(next, id, order[p - 1])
            invariant
                p <= order@.len(),
                order@ == before,
                in_turn(next, before),
                forall|k: int| p <= k < before.len() ==> reads_before(next, id, #[trigger] before[k]),
            decreases p,
        {
            p = p - 1;
        }
        order.insert(p, id);
        proof {
            inserted_in_turn(next, before, p as int, id);
            inserted_once(before, p as int, id);
            ids@.take(i as int).to_multiset_ensures();
            assert(ids@.take(i + 1) =~= ids@.take(i as int).push(id));
        }
        i = i + 1;
    }
    assert(ids@.take(i as int) =~= ids@);
    order
}

proof fn inserted_once(order: Seq<u64>, p: int, id: u64)
    requires
        0 <= p <= order.len(),
    ensures
        order.insert(p, id).to_multiset() == order.to_multiset().insert(id),
{
    let r = order.insert(p, id);
    r.to_multiset_ensures();
    assert(r[p] == id);
    assert(r.remove(p) =~= order);
    assert(r.contains(id));
    assert(r.to_multiset() =~= r.to_multiset().remove(id).insert(id));
}

proof fn inserted_in_turn(next: u64, order: Seq<u64>, p: int, id: u64)
    requires
        in_turn(next, order),
        0 <= p <= order.len(),
        forall|k: int| p <= k < order.len() ==> reads_before(next, id, #[trigger] order[k]),
        p > 0 ==> !reads_before(next, id, order[p - 1]),
    ensures
        in_turn(next, order.insert(p, id)),
{
    let r = order.insert(p, id);
    assert forall|i: int, j: int| 0 <= i < j < r.len() implies !reads_before(
        next,
        #[trigger] r[j],
        #[trigger] r[i],
    ) by {
        if i < p && j == p {
            if i < p - 1 {
                assert(!reads_before(next, order[p - 1], order[i]));
            }
        } else if i < p && j < p {
            assert(!reads_before(next, order[j], order[i]));
        } else if i < p {
            assert(!reads_before(next, order[j - 1], order[i]));
        } else if i == p {
            assert(reads_before(next, id, order[j - 1]));
        } else {
            assert(!reads_before(next, order[j - 1], order[i - 1]));
        }
    }
}

/// A turn that begins at a client reads that client first, so that the client
/// after the last one read is never passed over.
pub proof fn turns_begin_where_they_should(next: u64, order: Seq<u64>)
    requires
        in_turn(next, order),
        order.contains(next),
    ensures
        order[0] == next,
{
    let j = choose|j: int| 0 <= j < order.len() && order[j] == next;
    if j > 0 {
        assert(!reads_before(next, order[j], order[0]));
    }
}

/// The client that the next turn begins at, once the one at `index` was read.
pub fn turn_after(order: &Vec<u64>, index: usize) -> (r: u64)
    requires
        index < order@.len(),
    ensures
        r == order@[(index + 1) % order@.len() as int],
{
    let at: usize = if index < order.len() - 1 { index + 1 } else { 0 };
    proof {
        if index + 1 == order@.len() {
            vstd::arithmetic::div_mod::lemma_mod_self_0(order@.len() as int);
        } else {
            vstd::arithmetic::div_mod::lemma_small_mod((index + 1) as nat, order@.len());
        }
    }
    order[at]
}

/// Whether one more client is let in.
pub fn may_accept(clients: usize) -> (r: bool)
    ensures
        r == (clients < MAX_CLIENTS),
{
    clients < MAX_CLIENTS
}

/// The identifier after `id`; none is zero.
pub fn next_client_id(id: u64) -> (r: u64)
    ensures
        r == if id < u64::MAX {
            (id + 1) as u64
        } else {
            1
        },
        r >= 1,
{
    if id < u64::MAX { id + 1 } else { 1 }
}

/// A message of a client, ready to be handled.
#[derive(Debug)]
pub enum IncomingIpc {
    Command { client_id: u64, name: String, args: JsonValue },
    Query { client_id: u64, name: String, args: JsonValue },
    Subscribe { client_id: u64, topics: Vec<String> },
}

/// A message together with the client that sent it.
pub fn incoming(client_id: u64, message: IpcMessage) -> (r: IncomingIpc)
    ensures
        r == (match message {
            IpcMessage::Command(c) => IncomingIpc::Command {
                client_id,
                name: c.command,
                args: c.args,
            },
            IpcMessage::Query(q) => IncomingIpc::Query { client_id, name: q.query, args: q.args },
            IpcMessage::Subscribe(s) => IncomingIpc::Subscribe { client_id, topics: s.subscribe },
        }),
{
    match message {
        IpcMessage::Command(c) => IncomingIpc::Command {
            client_id,
            name: c.command,
            args: c.args,
        },
        IpcMessage::Query(q) => IncomingIpc::Query { client_id, name: q.query, args: q.args },
        IpcMessage::Subscribe(s) => IncomingIpc::Subscribe { client_id, topics: s.subscribe },
    }
}

/// Whose directory the socket lies in.
#[derive(Debug, Clone, Copy, PartialEq, Eq, Structural)]
pub enum RuntimeDirectorySource {
    /// That of the session, which is never changed.
    Xdg,
    /// One of our own.
    Fallback,
}

/// The name of the socket.
pub open spec fn socket_name() -> Seq<u8> {
    encode_utf8("jwm-ipc.sock"@)
}

/// A directory and a name in it.
pub open spec fn inside(directory: Seq<u8>, name: Seq<u8>) -> Seq<u8> {
    if directory.len() > 0 && directory.last() != 47u8 {
        directory.push(47u8) + name
    } else {
        directory + name
    }
}

/// The directory of our own of a user.
pub open spec fn own_directory(uid: u32) -> Seq<u8> {
    encode_utf8("/tmp/jwm-"@ + crate::text::decimal(uid as int))
}

/// Whether the runtime directory of the session can be used: an absolute path.
pub open spec fn session_directory(xdg_runtime_dir: Option<Seq<u8>>) -> bool {
    xdg_runtime_dir is Some && xdg_runtime_dir->0.len() > 0 && xdg_runtime_dir->0[0] == 47u8
}

fn append_bytes(to: &mut Vec<u8>, bytes: &[u8])
    ensures
        final(to)@ == old(to)@ + bytes@,
{
    let ghost before = to@;
    let mut i: usize = 0;
    while i < bytes.len()
        invariant
            i <= bytes@.len(),
            to@ == before + bytes@.take(i as int),
        decreases bytes@.len() - i,
    {
        to.push(bytes[i]);
        assert(to@ =~= before + bytes@.take(i + 1));
        i = i + 1;
    }
    assert(bytes@.take(i as int) =~= bytes@);
}

/// Where the socket lies, and in whose directory, given the bytes of
/// `XDG_RUNTIME_DIR`.
pub fn socket_location_from(xdg_runtime_dir: Option<&[u8]>, uid: u32) -> (r: (
    Vec<u8>,
    RuntimeDirectorySource,
))
    ensures
        ({
            let xdg = match xdg_runtime_dir {
                Some(d) => Some(d@),
                None => None,
            };
            if session_directory(xdg) {
                r.0@ == inside(xdg->0, socket_name()) && r.1 == RuntimeDirectorySource::Xdg
            } else {
                r.0@ == inside(own_directory(uid), socket_name()) && r.1
                    == RuntimeDirectorySource::Fallback
            }
        }),
{
    let mut path: Vec<u8> = Vec::new();
    let mut source = RuntimeDirectorySource::Fallback;
    if let Some(directory) = xdg_runtime_dir {
        if directory.len() > 0 && directory[0] == 47 {
            append_bytes(&mut path, directory);
            assert(path@ =~= directory@);
            source = RuntimeDirectorySource::Xdg;
        }
    }
    if path.len() == 0 {
        let mut text = "/tmp/jwm-".to_string();
        crate::text::push_nat(&mut text, uid as u64);
        append_bytes(&mut path, text.as_str().as_bytes());
        assert(path@ =~= own_directory(uid));
    }
    let ghost directory = path@;
    if path.len() > 0 && path[path.len() - 1] != 47 {
        path.push(47);
    }
    append_bytes(&mut path, "jwm-ipc.sock".as_bytes());
    assert(path@ =~= inside(directory, socket_name()));
    (path, source)
}

/// What is seen of a directory, links not followed.
#[derive(Debug, Clone, Copy, PartialEq, Eq, Structural)]
pub struct DirectoryFacts {
    pub is_dir: bool,
    pub owner: u32,
    pub mode: u32,
}

/// Why a directory cannot hold the socket.
#[derive(Debug, Clone, Copy, PartialEq, Eq, Structural)]
pub enum DirectoryError {
    NotDirectory,
    WrongOwner,
    TooOpen,
    NotSecured,
}

impl DirectoryError {
    /// How the refusal reads.
    pub fn message(&self) -> (r: &'static str)
        ensures
            r@ == (match *self {
                DirectoryError::NotDirectory =>
                    "IPC runtime path must be a real directory (not a symlink)"@,
                DirectoryError::WrongOwner =>
                    "IPC runtime directory is not owned by the current user"@,
                DirectoryError::TooOpen =>
                    "IPC runtime directory must not be accessible by group or other users"@,
                DirectoryError::NotSecured => "failed to secure fallback IPC runtime directory"@,
            }),
    {
        match self {
            DirectoryError::NotDirectory => {
                "IPC runtime path must be a real directory (not a symlink)"
            },
            DirectoryError::WrongOwner => {
                "IPC runtime directory is not owned by the current user"
            },
            DirectoryError::TooOpen => {
                "IPC runtime directory must not be accessible by group or other users"
            },
            DirectoryError::NotSecured => "failed to secure fallback IPC runtime directory",
        }
    }
}

/// What to do about a directory that was looked at.
#[derive(Debug, Clone, Copy, PartialEq, Eq, Structural)]
pub enum DirectoryStep {
    /// It can hold the socket.
    Use,
    /// Take access from everybody else, and look again.
    Tighten,
    Refuse(DirectoryError),
}

/// A directory of the user that nobody else can access.
pub open spec fn is_private(facts: DirectoryFacts, uid: u32) -> bool {
    facts.is_dir && facts.owner == uid && facts.mode & 63 == 0
}

/// What to do about a directory: one of another kind or of another user is
/// refused, and so is one of the session that is open to others; our own is
/// tightened.
pub open spec fn directory_step_of(
    facts: DirectoryFacts,
    uid: u32,
    source: RuntimeDirectorySource,
) -> DirectoryStep {
    if !facts.is_dir {
        DirectoryStep::Refuse(DirectoryError::NotDirectory)
    } else if facts.owner != uid {
        DirectoryStep::Refuse(DirectoryError::WrongOwner)
    } else if facts.mode & 63 == 0 {
        DirectoryStep::Use
    } else if source == RuntimeDirectorySource::Fallback {
        DirectoryStep::Tighten
    } else {
        DirectoryStep::Refuse(DirectoryError::TooOpen)
    }
}

/// What to do about a directory.
pub fn directory_step(facts: DirectoryFacts, uid: u32, source: RuntimeDirectorySource) -> (r:
    DirectoryStep)
    ensures
        r == directory_step_of(facts, uid, source),
{
    if !facts.is_dir {
        DirectoryStep::Refuse(DirectoryError::NotDirectory)
    } else if facts.owner != uid {
        DirectoryStep::Refuse(DirectoryError::WrongOwner)
    } else if facts.mode & 63 == 0 {
        DirectoryStep::Use
    } else {
        match source {
            RuntimeDirectorySource::Fallback => DirectoryStep::Tighten,
            RuntimeDirectorySource::Xdg => DirectoryStep::Refuse(DirectoryError::TooOpen),
        }
    }
}

/// Whether a directory may hold the socket, as it was seen first and, where it
/// had to be tightened, as it was seen after that.
pub fn validate_private_directory(
    facts: DirectoryFacts,
    tightened: Option<DirectoryFacts>,
    uid: u32,
    source: RuntimeDirectorySource,
) -> (r: Result<(), DirectoryError>)
    ensures
        r == (match directory_step_of(facts, uid, source) {
            DirectoryStep::Use => Ok::<(), DirectoryError>(()),
            DirectoryStep::Refuse(e) => Err(e),
            DirectoryStep::Tighten => if tightened is Some && is_private(tightened->0, uid) {
                Ok(())
            } else {
                Err(DirectoryError::NotSecured)
            },
        }),
        r is Ok ==> is_private(facts, uid) || (source == RuntimeDirectorySource::Fallback
            && tightened is Some && is_private(tightened->0, uid)),
{
    match directory_step(facts, uid, source) {
        DirectoryStep::Use => Ok(()),
        DirectoryStep::Refuse(e) => Err(e),
        DirectoryStep::Tighten => match tightened {
            Some(t) => if t.is_dir && t.owner == uid && t.mode & 63 == 0 {
                Ok(())
            } else {
                Err(DirectoryError::NotSecured)
            },
            None => Err(DirectoryError::NotSecured),
        },
    }
}

/// Where the socket lies, once its directory was found private.
pub fn validated_socket_path(
    xdg_runtime_dir: Option<&[u8]>,
    uid: u32,
    facts: DirectoryFacts,
    tightened: Option<DirectoryFacts>,
) -> (r: Result<Vec<u8>, DirectoryError>)
    ensures
        ({
            let xdg = match xdg_runtime_dir {
                Some(d) => Some(d@),
                None => None,
            };
            let (directory, source) = if session_directory(xdg) {
                (xdg->0, RuntimeDirectorySource::Xdg)
            } else {
                (own_directory(uid), RuntimeDirectorySource::Fallback)
            };
            match directory_step_of(facts, uid, source) {
                DirectoryStep::Use => r is Ok && r->Ok_0@ == inside(directory, socket_name()),
                DirectoryStep::Refuse(e) => r == Err::<Vec<u8>, DirectoryError>(e),
                DirectoryStep::Tighten => if tightened is Some && is_private(tightened->0, uid) {
                    r is Ok && r->Ok_0@ == inside(directory, socket_name())
                } else {
                    r == Err::<Vec<u8>, DirectoryError>(DirectoryError::NotSecured)
                },
            }
        }),
{
    let (path, source) = socket_location_from(xdg_runtime_dir, uid);
    match validate_private_directory(facts, tightened, uid, source) {
        Ok(()) => Ok(path),
        Err(e) => Err(e),
    }
}

/// What tells one socket from another.
#[derive(Debug, Clone, Copy, PartialEq, Eq, Structural)]
pub struct SocketIdentity {
    pub device: u64,
    pub inode: u64,
    pub owner: u32,
}

/// What is seen where the socket should be.
#[derive(Debug, Clone, Copy, PartialEq, Eq, Structural)]
pub enum EndpointProbe {
    Missing,
    NotSocket,
    Socket(SocketIdentity),
    /// It cannot be looked at.
    Failed,
}

/// What a connection to the socket that is there came to.
#[derive(Debug, Clone, Copy, PartialEq, Eq, Structural)]
pub enum ConnectProbe {
    /// Somebody listens.
    Connected,
    /// Nobody listens.
    Refused,
    /// The socket has gone meanwhile.
    Missing,
    /// It cannot be told.
    Failed,
}

/// What to do before binding the socket.
#[derive(Debug, Clone, Copy, PartialEq, Eq, Structural)]
pub enum BindStep {
    Bind,
    /// See whether somebody listens.
    Connect,
    /// Remove the socket, if it is still the one that was seen.
    RemoveStale(SocketIdentity),
    /// The path holds something else.
    RefuseNotSocket,
    /// The socket belongs to another user.
    RefuseForeign,
    /// Another server listens.
    RefuseActive,
    /// The socket was replaced meanwhile.
    RefuseChanged,
    /// The error that was met stands.
    Fail,
}

/// What to do about what lies where the socket should be.
pub fn on_endpoint(probe: EndpointProbe, uid: u32) -> (r: BindStep)
    ensures
        r == (match probe {
            EndpointProbe::Missing => BindStep::Bind,
            EndpointProbe::NotSocket => BindStep::RefuseNotSocket,
            EndpointProbe::Failed => BindStep::Fail,
            EndpointProbe::Socket(identity) => if identity.owner != uid {
                BindStep::RefuseForeign
            } else {
                BindStep::Connect
            },
        }),
{
    match probe {
        EndpointProbe::Missing => BindStep::Bind,
        EndpointProbe::NotSocket => BindStep::RefuseNotSocket,
        EndpointProbe::Failed => BindStep::Fail,
        EndpointProbe::Socket(identity) => if identity.owner != uid {
            BindStep::RefuseForeign
        } else {
            BindStep::Connect
        },
    }
}

/// What to do once a connection to the socket that was seen was tried.
pub fn on_connect(seen: SocketIdentity, probe: ConnectProbe) -> (r: BindStep)
    ensures
        r == (match probe {
            ConnectProbe::Connected => BindStep::RefuseActive,
            ConnectProbe::Refused => BindStep::RemoveStale(seen),
            ConnectProbe::Missing => BindStep::Bind,
            ConnectProbe::Failed => BindStep::Fail,
        }),
{
    match probe {
        ConnectProbe::Connected => BindStep::RefuseActive,
        ConnectProbe::Refused => BindStep::RemoveStale(seen),
        ConnectProbe::Missing => BindStep::Bind,
        ConnectProbe::Failed => BindStep::Fail,
    }
}

/// Whether a socket may be removed: only the one that was expected, as it is
/// seen now.
pub fn may_remove(expected: SocketIdentity, now: EndpointProbe) -> (r: bool)
    ensures
        r == (now == EndpointProbe::Socket(expected)),
{
    match now {
        EndpointProbe::Socket(identity) => identity == expected,
        _ => false,
    }
}

/// A topic covers its own event and every event below it; the star covers all.
pub proof fn topics_cover_what_is_below(topic: Seq<char>, rest: Seq<char>, event: Seq<char>)
    ensures
        matches_topic(topic, topic),
        matches_topic(topic, topic + seq!['/'] + rest),
        matches_topic("*"@, event),
        event.len() < topic.len() && topic != "*"@ ==> !matches_topic(topic, event),
{
    let below = topic + seq!['/'] + rest;
    assert(below.take(topic.len() as int) =~= topic);
    assert(below[topic.len() as int] == '/');
}

/// A turn goes on reading while something is left of the budget, by no more
/// than a chunk at once, and takes no more messages than it may.
pub proof fn turns_use_their_budget(budget: int, read: int)
    requires
        0 <= read,
        0 <= budget,
    ensures
        chunk_of(budget, read) > 0 <==> read < budget && read < MAX_READ_BYTES_PER_POLL,
        chunk_of(budget, read) <= READ_CHUNK,
        chunk_of(budget, read) < READ_CHUNK && chunk_of(budget, read) > 0 ==> read + chunk_of(
            budget,
            read,
        ) == budget || read + chunk_of(budget, read) == MAX_READ_BYTES_PER_POLL,
        message_limit_of(budget) <= budget,
        message_limit_of(budget) <= MAX_MESSAGES_PER_POLL,
        message_limit_of(budget) == budget || message_limit_of(budget) == MAX_MESSAGES_PER_POLL,
{
}

/// Of two clients just one is read first. A turn begins with the client that
/// it is the turn of, goes up from there, and begins again below.
pub proof fn clients_take_turns(next: u64, a: u64, b: u64, c: u64)
    ensures
        a != b ==> reads_before(next, a, b) != reads_before(next, b, a),
        !reads_before(next, a, a),
        reads_before(next, a, b) && reads_before(next, b, c) ==> reads_before(next, a, c),
        b != next ==> reads_before(next, next, b),
        next <= a < b ==> reads_before(next, a, b),
        a < b < next ==> reads_before(next, a, b),
        a < next <= b ==> reads_before(next, b, a),
{
}

/// Only a directory of the user that nobody else can access holds the socket,
/// and only our own is tightened to become one.
pub proof fn sockets_lie_in_private_directories(
    facts: DirectoryFacts,
    uid: u32,
    source: RuntimeDirectorySource,
)
    ensures
        ({
            let step = directory_step_of(facts, uid, source);
            &&& step == DirectoryStep::Use <==> is_private(facts, uid)
            &&& step == DirectoryStep::Tighten ==> facts.is_dir && facts.owner == uid && source
                == RuntimeDirectorySource::Fallback
            &&& facts.owner != uid || !facts.is_dir ==> step is Refuse
            &&& source == RuntimeDirectorySource::Xdg && !is_private(facts, uid) ==> step is Refuse
        }),
{
}

/// Nobody else can read, write or enter a private directory.
pub proof fn private_means_nobody_else(facts: DirectoryFacts, uid: u32)
    requires
        is_private(facts, uid),
    ensures
        facts.is_dir,
        facts.owner == uid,
        facts.mode & 0o7 == 0,
        facts.mode & 0o70 == 0,
{
    let mode = facts.mode;
    assert(mode & 0o7 == 0 && mode & 0o70 == 0) by (bit_vector)
        requires
            mode & 63 == 0,
    ;
}

/// A path into a directory begins with the directory and ends with the name,
/// with one slash between them.
pub proof fn paths_lead_into_directories(directory: Seq<u8>, name: Seq<u8>)
    requires
        directory.len() > 0,
    ensures
        ({
            let path = inside(directory, name);
            let n = path.len() - name.len();
            &&& path.take(directory.len() as int) == directory
            &&& path.skip(n) == name
            &&& path[n - 1] == 47
            &&& n == directory.len() || n == directory.len() + 1 && directory.last() != 47
        }),
{
    let path = inside(directory, name);
    let n = path.len() - name.len();
    assert(path.take(directory.len() as int) =~= directory);
    assert(path.skip(n) =~= name);
}

} // verus!
