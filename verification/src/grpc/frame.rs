//! The frames of the control protocol: a command byte, then a length of four
//! bytes, the highest first, and the message; a reply begins with a status
//! byte.
use vstd::prelude::*;
use crate::number::{decimal, decimal_text};
use crate::text::{concat2, from_utf8_lossy, lossy_text};

verus! {

/// The longest message that is read.
pub const MAX_MESSAGE: usize = 1048576;

/// The longest error text that is read.
pub const MAX_ERROR_TEXT: usize = 65536;

/// The four bytes of a length, the highest first.
pub open spec fn length_bytes(n: int) -> Seq<u8> {
    seq![
        (n / 0x100_0000 % 0x100) as u8,
        (n / 0x1_0000 % 0x100) as u8,
        (n / 0x100 % 0x100) as u8,
        (n % 0x100) as u8,
    ]
}

/// The length that four bytes stand for, the highest first.
pub open spec fn length_value(b: Seq<u8>) -> int {
    b[0] * 0x100_0000 + b[1] * 0x1_0000 + b[2] * 0x100 + b[3]
}

/// A message behind its length. Of a length above four bytes only the low
/// four are written.
pub open spec fn framed(message: Seq<u8>) -> Seq<u8> {
    length_bytes(message.len() as int % 0x1_0000_0000) + message
}

/// A command: its code, then the message in its frame.
pub open spec fn command(opcode: u8, message: Seq<u8>) -> Seq<u8> {
    seq![opcode] + framed(message)
}

/// Four bytes give back the length that they were made of.
pub proof fn law_length_reads_back(n: int)
    requires
        0 <= n < 0x1_0000_0000,
    ensures
        length_value(length_bytes(n)) == n,
        length_bytes(n).len() == 4,
{
}

/// Appends a message behind its length.
pub fn write_message(out: &mut Vec<u8>, message: &Vec<u8>)
    ensures
        final(out)@ == old(out)@ + framed(message@),
{
    let ghost before = out@;
    let n: u64 = message.len() as u64 % 0x1_0000_0000;
    out.push((n / 0x100_0000 % 0x100) as u8);
    out.push((n / 0x1_0000 % 0x100) as u8);
    out.push((n / 0x100 % 0x100) as u8);
    out.push((n % 0x100) as u8);
    assert(out@ =~= before + length_bytes(message@.len() as int % 0x1_0000_0000));
    let mut i: usize = 0;
    while i < message.len()
        invariant
            i <= message@.len(),
            out@ == before + length_bytes(
                message@.len() as int % 0x1_0000_0000,
            ) + message@.take(i as int),
        decreases message.len() - i,
    {
        out.push(message[i]);
        assert(message@.take(i as int + 1) =~= message@.take(i as int).push(message@[i as int]));
        i += 1;
    }
    assert(message@.take(message@.len() as int) =~= message@);
    assert(out@ =~= before + framed(message@));
}

/// The bytes of a command.
pub fn command_bytes(opcode: u8, message: &Vec<u8>) -> (out: Vec<u8>)
    ensures
        out@ == command(opcode, message@),
{
    let mut out: Vec<u8> = Vec::new();
    out.push(opcode);
    write_message(&mut out, message);
    assert(out@ =~= command(opcode, message@));
    out
}

/// What stops an exchange with the daemon.
#[derive(Debug, Clone)]
pub enum SyncError<S> {
    /// The daemon refused the command, with its reason.
    Rejected(S),
    /// The reason is longer than what is read.
    ErrorTooLarge(usize),
    /// The message is longer than what is read.
    ResponseTooLarge(usize),
    /// A file was not taken over; so many bytes of it were written.
    PushFailed(u64),
    /// A stream did not start, with the stream's name and the reason.
    StartRejected(S, S),
    /// The reason why the stream did not start is longer than what is read.
    StartErrorTooLarge(usize),
    /// A frame of a stream is empty or longer than what is read.
    FrameLength(S, usize),
}

impl View for SyncError<String> {
    type V = SyncError<Seq<char>>;

    open spec fn view(&self) -> SyncError<Seq<char>> {
        match self {
            SyncError::Rejected(m) => SyncError::Rejected(m@),
            SyncError::ErrorTooLarge(n) => SyncError::ErrorTooLarge(*n),
            SyncError::ResponseTooLarge(n) => SyncError::ResponseTooLarge(*n),
            SyncError::PushFailed(n) => SyncError::PushFailed(*n),
            SyncError::StartRejected(l, m) => SyncError::StartRejected(l@, m@),
            SyncError::StartErrorTooLarge(n) => SyncError::StartErrorTooLarge(*n),
            SyncError::FrameLength(l, n) => SyncError::FrameLength(l@, *n),
        }
    }
}

impl SyncError<Seq<char>> {
    /// The error in words.
    pub open spec fn words(self) -> Seq<char> {
        match self {
            SyncError::Rejected(m) => "sync command rejected: "@ + m,
            SyncError::ErrorTooLarge(n) => "sync error message too large: "@ + decimal(n as nat),
            SyncError::ResponseTooLarge(n) => "sync response too large: "@ + decimal(n as nat),
            SyncError::PushFailed(n) => "sync push failed after "@ + decimal(n as nat) + " bytes"@,
            SyncError::StartRejected(l, m) => "sync "@ + l + " start rejected: "@ + m,
            SyncError::StartErrorTooLarge(n) => "sync RTB error message too large: "@ + decimal(
                n as nat,
            ),
            SyncError::FrameLength(l, n) => "invalid sync "@ + l + " frame length: "@ + decimal(
                n as nat,
            ),
        }
    }
}

impl SyncError<String> {
    /// The error in words.
    pub fn message(&self) -> (s: String)
        ensures
            s@ == self@.words(),
    {
        match self {
            SyncError::Rejected(m) => concat2("sync command rejected: ", m.as_str()),
            SyncError::ErrorTooLarge(n) => concat2(
                "sync error message too large: ",
                decimal_text(*n as u64).as_str(),
            ),
            SyncError::ResponseTooLarge(n) => concat2(
                "sync response too large: ",
                decimal_text(*n as u64).as_str(),
            ),
            SyncError::PushFailed(n) => crate::text::concat3(
                "sync push failed after ",
                decimal_text(*n).as_str(),
                " bytes",
            ),
            SyncError::StartRejected(l, m) => crate::text::concat4(
                "sync ",
                l.as_str(),
                " start rejected: ",
                m.as_str(),
            ),
            SyncError::StartErrorTooLarge(n) => concat2(
                "sync RTB error message too large: ",
                decimal_text(*n as u64).as_str(),
            ),
            SyncError::FrameLength(l, n) => crate::text::concat4(
                "invalid sync ",
                l.as_str(),
                " frame length: ",
                decimal_text(*n as u64).as_str(),
            ),
        }
    }
}

/// What to do next with a reply of which some bytes have been read.
#[derive(Debug, Clone)]
pub enum ReplyStep<B, E> {
    /// Read on until so many bytes are there.
    Need(usize),
    /// The reply is complete and holds this message.
    Message(B),
    /// The exchange has failed.
    Failed(E),
}

impl View for ReplyStep<Vec<u8>, SyncError<String>> {
    type V = ReplyStep<Seq<u8>, SyncError<Seq<char>>>;

    open spec fn view(&self) -> ReplyStep<Seq<u8>, SyncError<Seq<char>>> {
        match self {
            ReplyStep::Need(n) => ReplyStep::Need(*n),
            ReplyStep::Message(b) => ReplyStep::Message(b@),
            ReplyStep::Failed(e) => ReplyStep::Failed(e@),
        }
    }
}

/// What to do with a message whose bytes follow `skip` others: read its
/// length, refuse it where it is too long, read it whole.
pub open spec fn message_step(b: Seq<u8>, skip: int) -> ReplyStep<Seq<u8>, SyncError<Seq<char>>> {
    if b.len() < skip + 4 {
        ReplyStep::Need((skip + 4) as usize)
    } else {
        let n = length_value(b.subrange(skip, skip + 4));
        if n > MAX_MESSAGE {
            ReplyStep::Failed(SyncError::ResponseTooLarge(n as usize))
        } else if b.len() < skip + 4 + n {
            ReplyStep::Need((skip + 4 + n) as usize)
        } else {
            ReplyStep::Message(b.subrange(skip + 4, skip + 4 + n))
        }
    }
}

/// What to do with a refusal: read the length of its reason, give up where it
/// is too long, read it whole.
pub open spec fn refusal_step(b: Seq<u8>) -> ReplyStep<Seq<u8>, SyncError<Seq<char>>> {
    if b.len() < 5 {
        ReplyStep::Need(5)
    } else {
        let n = length_value(b.subrange(1, 5));
        if n > MAX_ERROR_TEXT {
            ReplyStep::Failed(SyncError::ErrorTooLarge(n as usize))
        } else if b.len() < 5 + n {
            ReplyStep::Need((5 + n) as usize)
        } else {
            ReplyStep::Failed(SyncError::Rejected(lossy_text(b.subrange(5, 5 + n))))
        }
    }
}

/// What to do with a status: a zero byte says that the command was accepted,
/// and anything else stands before a refusal.
pub open spec fn status_step(b: Seq<u8>) -> ReplyStep<Seq<u8>, SyncError<Seq<char>>> {
    if b.len() == 0 {
        ReplyStep::Need(1)
    } else if b[0] == 0 {
        ReplyStep::Message(Seq::empty())
    } else {
        refusal_step(b)
    }
}

/// What to do with a reply: its status byte is zero before a message, and
/// anything else before a refusal.
pub open spec fn reply_step(b: Seq<u8>) -> ReplyStep<Seq<u8>, SyncError<Seq<char>>> {
    if b.len() == 0 {
        ReplyStep::Need(1)
    } else if b[0] == 0 {
        message_step(b, 1)
    } else {
        refusal_step(b)
    }
}

pub(crate) fn length_at(b: &Vec<u8>, at: usize) -> (n: usize)
    requires
        at + 4 <= b.len(),
    ensures
        n == length_value(b@.subrange(at as int, at + 4)),
{
    (b[at] as usize) * 0x100_0000 + (b[at + 1] as usize) * 0x1_0000 + (b[at + 2] as usize) * 0x100
        + (b[at + 3] as usize)
}

pub(crate) fn bytes_range(b: &Vec<u8>, lo: usize, hi: usize) -> (r: Vec<u8>)
    requires
        lo <= hi <= b@.len(),
    ensures
        r@ == b@.subrange(lo as int, hi as int),
{
    let mut r: Vec<u8> = Vec::new();
    let mut i: usize = lo;
    while i < hi
        invariant
            lo <= i <= hi <= b@.len(),
            r@ == b@.subrange(lo as int, i as int),
        decreases hi - i,
    {
        r.push(b[i]);
        assert(b@.subrange(lo as int, i as int + 1) =~= b@.subrange(lo as int, i as int).push(
            b@[i as int],
        ));
        i += 1;
    }
    r
}

/// What to do next with a message of which `b` has been read, `skip` bytes of
/// it before the length.
pub fn read_message(b: &Vec<u8>, skip: usize) -> (r: ReplyStep<Vec<u8>, SyncError<String>>)
    requires
        skip <= 1,
    ensures
        r@ == message_step(b@, skip as int),
{
    if b.len() < skip + 4 {
        return ReplyStep::Need(skip + 4);
    }
    let n: usize = length_at(b, skip);
    if n > MAX_MESSAGE {
        return ReplyStep::Failed(SyncError::ResponseTooLarge(n));
    }
    if b.len() < skip + 4 + n {
        return ReplyStep::Need(skip + 4 + n);
    }
    ReplyStep::Message(bytes_range(b, skip + 4, skip + 4 + n))
}

fn read_refusal(b: &Vec<u8>) -> (r: ReplyStep<Vec<u8>, SyncError<String>>)
    ensures
        r@ == refusal_step(b@),
{
    if b.len() < 5 {
        return ReplyStep::Need(5);
    }
    let n: usize = length_at(b, 1);
    if n > MAX_ERROR_TEXT {
        return ReplyStep::Failed(SyncError::ErrorTooLarge(n));
    }
    if b.len() < 5 + n {
        return ReplyStep::Need(5 + n);
    }
    ReplyStep::Failed(SyncError::Rejected(from_utf8_lossy(&bytes_range(b, 5, 5 + n))))
}

/// What to do next with a status of which `b` has been read.
pub fn read_status(b: &Vec<u8>) -> (r: ReplyStep<Vec<u8>, SyncError<String>>)
    ensures
        r@ == status_step(b@),
{
    if b.len() == 0 {
        return ReplyStep::Need(1);
    }
    if b[0] == 0 {
        return ReplyStep::Message(Vec::new());
    }
    read_refusal(b)
}

/// What to do next with a reply of which `b` has been read.
pub fn read_reply(b: &Vec<u8>) -> (r: ReplyStep<Vec<u8>, SyncError<String>>)
    ensures
        r@ == reply_step(b@),
{
    if b.len() == 0 {
        return ReplyStep::Need(1);
    }
    if b[0] == 0 {
        return read_message(b, 1);
    }
    read_refusal(b)
}

/// A reply that accepts gives back the message that it was made of, and asks
/// for nothing past its last byte.
pub proof fn law_reply_reads_back(message: Seq<u8>)
    requires
        message.len() <= MAX_MESSAGE,
    ensures
        reply_step(seq![0u8] + framed(message)) == ReplyStep::<Seq<u8>, SyncError<Seq<char>>>::Message(
            message,
        ),
{
    let b = seq![0u8] + framed(message);
    let n = message.len() as int;
    law_length_reads_back(n);
    assert(b.subrange(1, 5) =~= length_bytes(n));
    assert(b.subrange(5, 5 + n) =~= message);
}

/// A reply that refuses gives the daemon's reason.
pub proof fn law_refusal_reads_back(status: u8, reason: Seq<u8>)
    requires
        status != 0,
        reason.len() <= MAX_ERROR_TEXT,
    ensures
        reply_step(seq![status] + framed(reason)) == ReplyStep::<
            Seq<u8>,
            SyncError<Seq<char>>,
        >::Failed(SyncError::Rejected(lossy_text(reason))),
{
    let b = seq![status] + framed(reason);
    let n = reason.len() as int;
    law_length_reads_back(n);
    assert(b.subrange(1, 5) =~= length_bytes(n));
    assert(b.subrange(5, 5 + n) =~= reason);
}

/// Reading never waits for bytes that are already there: what is asked for is
/// more than what has been read.
pub proof fn law_reply_makes_progress(b: Seq<u8>)
    ensures
        reply_step(b) matches ReplyStep::Need(n) ==> n > b.len(),
{
}

} // verus!
