//! The streams that the daemon sends: how each is started, and how its frames
//! are read.
use vstd::prelude::*;
use crate::grpc::frame::{
    MAX_ERROR_TEXT, MAX_MESSAGE, ReplyStep, SyncError, bytes_range, framed, law_length_reads_back,
    length_at, length_bytes, length_value,
};
use crate::proto::{Call, CallModel, Request};
use crate::text::{from_utf8_lossy, lossy_text};

verus! {

// ---------------------------------------------------------------------------
// Kinds of streams
// ---------------------------------------------------------------------------

/// The streams that the daemon can send.
#[derive(Debug, Clone, Copy, PartialEq, Eq, Structural)]
pub enum StreamKind {
    /// Real-time benchmark samples.
    Rtb,
    /// Cache reports.
    Cr,
    /// Cache reports of threads.
    Tc,
    /// Latencies of caches and memory.
    Cml,
    /// Counters of the GPU.
    Gc,
}

pub const SYNC_CMD_START_RTB_STREAM: u8 = 1;

pub const SYNC_CMD_START_CR_STREAM: u8 = 38;

pub const SYNC_CMD_START_TC_STREAM: u8 = 39;

pub const SYNC_CMD_START_CML_STREAM: u8 = 40;

pub const SYNC_CMD_START_GC_STREAM: u8 = 41;

impl StreamKind {
    /// The code of the command that starts the stream.
    pub open spec fn start_code(self) -> u8 {
        match self {
            StreamKind::Rtb => SYNC_CMD_START_RTB_STREAM,
            StreamKind::Cr => SYNC_CMD_START_CR_STREAM,
            StreamKind::Tc => SYNC_CMD_START_TC_STREAM,
            StreamKind::Cml => SYNC_CMD_START_CML_STREAM,
            StreamKind::Gc => SYNC_CMD_START_GC_STREAM,
        }
    }

    /// The stream's name in messages.
    pub open spec fn name(self) -> Seq<char> {
        match self {
            StreamKind::Rtb => "RTB"@,
            StreamKind::Cr => "CR"@,
            StreamKind::Tc => "TC"@,
            StreamKind::Cml => "CML"@,
            StreamKind::Gc => "GC"@,
        }
    }

    /// What a message about a frame of the stream calls it.
    pub open spec fn frame_name(self) -> Seq<char> {
        match self {
            StreamKind::Rtb => "RTB"@,
            _ => "stream"@,
        }
    }

    /// The name of the thread that reads the stream.
    pub open spec fn reader_name(self) -> Seq<char> {
        match self {
            StreamKind::Rtb => "rtb-sync-client"@,
            StreamKind::Cr => "cr-sync-client"@,
            StreamKind::Tc => "tc-sync-client"@,
            StreamKind::Cml => "cml-sync-client"@,
            StreamKind::Gc => "gc-sync-client"@,
        }
    }

    /// The code of the command that starts the stream.
    pub fn opcode(&self) -> (code: u8)
        ensures
            code == self.start_code(),
    {
        match self {
            StreamKind::Rtb => SYNC_CMD_START_RTB_STREAM,
            StreamKind::Cr => SYNC_CMD_START_CR_STREAM,
            StreamKind::Tc => SYNC_CMD_START_TC_STREAM,
            StreamKind::Cml => SYNC_CMD_START_CML_STREAM,
            StreamKind::Gc => SYNC_CMD_START_GC_STREAM,
        }
    }

    /// The stream's name in messages.
    pub fn label(&self) -> (s: &'static str)
        ensures
            s@ == self.name(),
    {
        match self {
            StreamKind::Rtb => "RTB",
            StreamKind::Cr => "CR",
            StreamKind::Tc => "TC",
            StreamKind::Cml => "CML",
            StreamKind::Gc => "GC",
        }
    }

    /// What a message about a frame of the stream calls it.
    pub fn frame_label(&self) -> (s: &'static str)
        ensures
            s@ == self.frame_name(),
    {
        match self {
            StreamKind::Rtb => "RTB",
            _ => "stream",
        }
    }

    /// The name of the thread that reads the stream.
    pub fn thread_name(&self) -> (s: &'static str)
        ensures
            s@ == self.reader_name(),
    {
        match self {
            StreamKind::Rtb => "rtb-sync-client",
            StreamKind::Cr => "cr-sync-client",
            StreamKind::Tc => "tc-sync-client",
            StreamKind::Cml => "cml-sync-client",
            StreamKind::Gc => "gc-sync-client",
        }
    }
}

/// The stream that a request starts, if it starts one.
pub open spec fn stream_started(request: CallModel) -> Option<StreamKind> {
    match request {
        Request::StartRtbStream { .. } => Some(StreamKind::Rtb),
        Request::StartCrStream { .. } => Some(StreamKind::Cr),
        Request::StartTcStream { .. } => Some(StreamKind::Tc),
        Request::StartCmlStream { .. } => Some(StreamKind::Cml),
        Request::StartGcStream { .. } => Some(StreamKind::Gc),
        _ => None,
    }
}

/// The stream that a request starts, if it starts one.
pub fn stream_kind(request: &Call) -> (kind: Option<StreamKind>)
    ensures
        kind == stream_started(request@),
{
    match request {
        Request::StartRtbStream { .. } => Some(StreamKind::Rtb),
        Request::StartCrStream { .. } => Some(StreamKind::Cr),
        Request::StartTcStream { .. } => Some(StreamKind::Tc),
        Request::StartCmlStream { .. } => Some(StreamKind::Cml),
        Request::StartGcStream { .. } => Some(StreamKind::Gc),
        _ => None,
    }
}

/// What to do with the answer to a start command: a zero byte says that the
/// stream goes on from there; anything else is followed by the reason.
pub open spec fn start_step(kind: StreamKind, b: Seq<u8>) -> ReplyStep<
    Seq<u8>,
    SyncError<Seq<char>>,
> {
    if b.len() == 0 {
        ReplyStep::Need(1)
    } else if b[0] == 0 {
        ReplyStep::Message(Seq::empty())
    } else if b.len() < 5 {
        ReplyStep::Need(5)
    } else {
        let n = length_value(b.subrange(1, 5));
        if n > MAX_ERROR_TEXT {
            ReplyStep::Failed(SyncError::StartErrorTooLarge(n as usize))
        } else if b.len() < 5 + n {
            ReplyStep::Need((5 + n) as usize)
        } else {
            ReplyStep::Failed(
                SyncError::StartRejected(kind.name(), lossy_text(b.subrange(5, 5 + n))),
            )
        }
    }
}

/// What to do next with the answer to a start command of which `b` has been
/// read.
pub fn read_start(kind: StreamKind, b: &Vec<u8>) -> (r: ReplyStep<Vec<u8>, SyncError<String>>)
    ensures
        r@ == start_step(kind, b@),
{
    if b.len() == 0 {
        return ReplyStep::Need(1);
    }
    if b[0] == 0 {
        return ReplyStep::Message(Vec::new());
    }
    if b.len() < 5 {
        return ReplyStep::Need(5);
    }
    let n: usize = length_at(b, 1);
    if n > MAX_ERROR_TEXT {
        return ReplyStep::Failed(SyncError::StartErrorTooLarge(n));
    }
    if b.len() < 5 + n {
        return ReplyStep::Need(5 + n);
    }
    let reason = from_utf8_lossy(&bytes_range(b, 5, 5 + n));
    ReplyStep::Failed(SyncError::StartRejected(kind.label().to_string(), reason))
}

/// What to do with a frame of a stream: read its length, refuse it where it is
/// empty or too long, read it whole.
pub open spec fn frame_step(kind: StreamKind, b: Seq<u8>) -> ReplyStep<
    Seq<u8>,
    SyncError<Seq<char>>,
> {
    if b.len() < 4 {
        ReplyStep::Need(4)
    } else {
        let n = length_value(b.subrange(0, 4));
        if n == 0 || n > MAX_MESSAGE {
            ReplyStep::Failed(SyncError::FrameLength(kind.frame_name(), n as usize))
        } else if b.len() < 4 + n {
            ReplyStep::Need((4 + n) as usize)
        } else {
            ReplyStep::Message(b.subrange(4, 4 + n))
        }
    }
}

/// What to do next with a frame of which `b` has been read.
pub fn read_frame(kind: StreamKind, b: &Vec<u8>) -> (r: ReplyStep<Vec<u8>, SyncError<String>>)
    ensures
        r@ == frame_step(kind, b@),
{
    if b.len() < 4 {
        return ReplyStep::Need(4);
    }
    let n: usize = length_at(b, 0);
    if n == 0 || n > MAX_MESSAGE {
        return ReplyStep::Failed(SyncError::FrameLength(kind.frame_label().to_string(), n));
    }
    if b.len() < 4 + n {
        return ReplyStep::Need(4 + n);
    }
    ReplyStep::Message(bytes_range(b, 4, 4 + n))
}

/// A frame gives back the message that it was made of.
pub proof fn law_frame_reads_back(kind: StreamKind, message: Seq<u8>)
    requires
        0 < message.len() <= MAX_MESSAGE,
    ensures
        frame_step(kind, framed(message)) == ReplyStep::<Seq<u8>, SyncError<Seq<char>>>::Message(
            message,
        ),
{
    let b = framed(message);
    let n = message.len() as int;
    law_length_reads_back(n);
    assert(b.subrange(0, 4) =~= length_bytes(n));
    assert(b.subrange(4, 4 + n) =~= message);
}

/// What came of waiting for the next frame of a stream.
#[derive(Debug, Clone, Copy, PartialEq, Eq, Structural)]
pub enum StreamEvent {
    /// A frame has come whole.
    Frame,
    /// The other side closed the connection between two frames.
    Closed,
    /// Nothing came in time.
    Idle,
    /// Reading or decoding failed.
    Fault,
    /// The stream was cancelled.
    Cancelled,
}

/// What it means that a connection ended after `read` bytes of a frame.
pub open spec fn end_of_stream(read: nat) -> StreamEvent {
    if read < 4 {
        StreamEvent::Closed
    } else {
        StreamEvent::Fault
    }
}

/// What it means that a connection ended after `read` of a frame: a stream may
/// end while the length of a frame is awaited, and not within a frame.
pub fn ended_event(read: &Vec<u8>) -> (event: StreamEvent)
    ensures
        event == end_of_stream(read@.len()),
        event == if read@.len() < 4 {
            StreamEvent::Closed
        } else {
            StreamEvent::Fault
        },
{
    if read.len() < 4 {
        StreamEvent::Closed
    } else {
        StreamEvent::Fault
    }
}

/// What a reader does next.
#[derive(Debug, Clone, Copy, PartialEq, Eq, Structural)]
pub enum StreamAction {
    /// Queue the frame and wait for the next.
    Queue,
    /// Wait for the next frame.
    Wait,
    /// Stop reading.
    Stop,
}

/// What a reader does after an event.
pub open spec fn action_after(event: StreamEvent) -> StreamAction {
    match event {
        StreamEvent::Frame => StreamAction::Queue,
        StreamEvent::Idle => StreamAction::Wait,
        _ => StreamAction::Stop,
    }
}

/// What a reader does after an event.
pub fn next_action(event: StreamEvent) -> (action: StreamAction)
    ensures
        action == action_after(event),
        action == StreamAction::Queue <==> event == StreamEvent::Frame,
        action == StreamAction::Wait <==> event == StreamEvent::Idle,
{
    match event {
        StreamEvent::Frame => StreamAction::Queue,
        StreamEvent::Idle => StreamAction::Wait,
        StreamEvent::Closed => StreamAction::Stop,
        StreamEvent::Fault => StreamAction::Stop,
        StreamEvent::Cancelled => StreamAction::Stop,
    }
}

/// Whether a stream counts as finished after its reader has stopped on
/// `event`: one that comes over the control protocol always does; one that
/// comes over the service does where it is a latency benchmark that was not
/// cancelled.
pub open spec fn finished_after(kind: StreamKind, over_control: bool, event: StreamEvent) -> bool {
    over_control || (kind is Cml && !(event is Cancelled))
}

/// Whether a stream counts as finished after its reader has stopped on
/// `event`.
pub fn counts_as_finished(kind: StreamKind, over_control: bool, event: StreamEvent) -> (r: bool)
    ensures
        r == finished_after(kind, over_control, event),
        r == (over_control || (kind == StreamKind::Cml && event != StreamEvent::Cancelled)),
{
    over_control || (kind == StreamKind::Cml && event != StreamEvent::Cancelled)
}

} // verus!
