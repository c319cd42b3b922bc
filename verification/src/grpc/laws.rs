//! What goes over the wire for each request, and how streams begin and are
//! read.
use vstd::prelude::*;
use crate::grpc::client::{procedure_of, source_settings_fault};
use crate::grpc::frame::{
    ReplyStep, SyncError, command, framed, law_length_reads_back, length_bytes, length_value,
    message_step, reply_step, status_step,
};
use crate::grpc::streaming::{
    StreamEvent, StreamKind, action_after, end_of_stream, finished_after, frame_step, start_step,
    stream_started,
};
use crate::grpc::sync_control::{SyncCall, is_call, opcode_of, timeout_of};
use crate::proto::CallModel;
use crate::text::{blank, lossy_text};

verus! {

/// The code with which the daemon knows each command: launching an app is not
/// stopping it, and so on for every request that is no stream.
pub proof fn law_commands_have_the_daemons_codes(request: CallModel)
    ensures
        request is Health ==> opcode_of(request) == Some(2u8),
        request is GetPid ==> opcode_of(request) == Some(3u8),
        request is StopRecording ==> opcode_of(request) == Some(4u8),
        request is GetRtbSummary ==> opcode_of(request) == Some(5u8),
        request is GetSurfaceNames ==> opcode_of(request) == Some(6u8),
        request is Shell ==> opcode_of(request) == Some(7u8),
        request is PathExists ==> opcode_of(request) == Some(8u8),
        request is GetTopApp ==> opcode_of(request) == Some(9u8),
        request is GetScreenSize ==> opcode_of(request) == Some(10u8),
        request is InputTap ==> opcode_of(request) == Some(11u8),
        request is InputSwipe ==> opcode_of(request) == Some(12u8),
        request is InputText ==> opcode_of(request) == Some(13u8),
        request is InputKeyEvent ==> opcode_of(request) == Some(14u8),
        request is ListPackages ==> opcode_of(request) == Some(15u8),
        request is GetPackageInfo ==> opcode_of(request) == Some(16u8),
        request is LaunchApp ==> opcode_of(request) == Some(17u8),
        request is StopApp ==> opcode_of(request) == Some(18u8),
        request is InstallApk ==> opcode_of(request) == Some(19u8),
        request is GetDeviceProp ==> opcode_of(request) == Some(20u8),
        request is GetTemperature ==> opcode_of(request) == Some(21u8),
        request is SetCharging ==> opcode_of(request) == Some(22u8),
        request is RemoveFile ==> opcode_of(request) == Some(23u8),
        request is CreateArchive ==> opcode_of(request) == Some(24u8),
        request is ExtractArchive ==> opcode_of(request) == Some(25u8),
        request is Chmod ==> opcode_of(request) == Some(26u8),
        request is Chown ==> opcode_of(request) == Some(27u8),
        request is GetFileOwner ==> opcode_of(request) == Some(28u8),
        request is DiscoverFtraceEvents ==> opcode_of(request) == Some(29u8),
        request is DiscoverPmuEvents ==> opcode_of(request) == Some(30u8),
        request is GetPmuHwCounters ==> opcode_of(request) == Some(31u8),
        request is DiscoverGpuCounters ==> opcode_of(request) == Some(32u8),
        request is Screenshot ==> opcode_of(request) == Some(33u8),
        request is PullFile ==> opcode_of(request) == Some(34u8),
        request is PushFile ==> opcode_of(request) == Some(35u8),
        request is StartPerfetto ==> opcode_of(request) == Some(36u8),
        request is GetPerfettoStatus ==> opcode_of(request) == Some(37u8),
        request is SetDeviceId ==> opcode_of(request) == Some(42u8),
{
}

/// The code with which the daemon knows the command that starts each stream,
/// and the stream that each request starts.
pub proof fn law_streams_have_the_daemons_codes(request: CallModel, kind: StreamKind)
    ensures
        request is StartRtbStream <==> stream_started(request) == Some(StreamKind::Rtb),
        request is StartCrStream <==> stream_started(request) == Some(StreamKind::Cr),
        request is StartTcStream <==> stream_started(request) == Some(StreamKind::Tc),
        request is StartCmlStream <==> stream_started(request) == Some(StreamKind::Cml),
        request is StartGcStream <==> stream_started(request) == Some(StreamKind::Gc),
        kind == StreamKind::Rtb ==> kind.start_code() == 1 && kind.name() == "RTB"@,
        kind == StreamKind::Cr ==> kind.start_code() == 38 && kind.name() == "CR"@,
        kind == StreamKind::Tc ==> kind.start_code() == 39 && kind.name() == "TC"@,
        kind == StreamKind::Cml ==> kind.start_code() == 40 && kind.name() == "CML"@,
        kind == StreamKind::Gc ==> kind.start_code() == 41 && kind.name() == "GC"@,
        kind.frame_name() == if kind == StreamKind::Rtb { "RTB"@ } else { "stream"@ },
{
}

/// A call over the control protocol goes where it is sent, carries the
/// request that was made, and waits half a minute for each part of a file and
/// five seconds for anything else.
pub proof fn law_a_call_carries_its_request(call: SyncCall, addr: Seq<char>, request: CallModel)
    requires
        opcode_of(request) is Some,
        is_call(call, addr, opcode_of(request)->Some_0, request, timeout_of(request)),
    ensures
        call.addr@ == addr,
        call.request@ == request,
        call.timeout_secs == if request is Screenshot || request is PullFile
            || request is PushFile {
            30u64
        } else {
            5u64
        },
        request is LaunchApp ==> call.opcode == 17,
        request is StopApp ==> call.opcode == 18,
        request is PullFile ==> call.opcode == 34,
        request is PushFile ==> call.opcode == 35,
{
}

/// The remote procedure that answers each request bears the request's name.
pub proof fn law_procedures_bear_their_requests_names(request: CallModel)
    ensures
        request is Health ==> procedure_of(request) == "Health"@,
        request is GetPid ==> procedure_of(request) == "GetPid"@,
        request is StopRecording ==> procedure_of(request) == "StopRecording"@,
        request is GetRtbSummary ==> procedure_of(request) == "GetRtbSummary"@,
        request is GetSurfaceNames ==> procedure_of(request) == "GetSurfaceNames"@,
        request is Shell ==> procedure_of(request) == "Shell"@,
        request is PathExists ==> procedure_of(request) == "PathExists"@,
        request is GetTopApp ==> procedure_of(request) == "GetTopApp"@,
        request is GetScreenSize ==> procedure_of(request) == "GetScreenSize"@,
        request is InputTap ==> procedure_of(request) == "InputTap"@,
        request is InputSwipe ==> procedure_of(request) == "InputSwipe"@,
        request is InputText ==> procedure_of(request) == "InputText"@,
        request is InputKeyEvent ==> procedure_of(request) == "InputKeyEvent"@,
        request is ListPackages ==> procedure_of(request) == "ListPackages"@,
        request is GetPackageInfo ==> procedure_of(request) == "GetPackageInfo"@,
        request is LaunchApp ==> procedure_of(request) == "LaunchApp"@,
        request is StopApp ==> procedure_of(request) == "StopApp"@,
        request is InstallApk ==> procedure_of(request) == "InstallApk"@,
        request is GetDeviceProp ==> procedure_of(request) == "GetDeviceProp"@,
        request is GetTemperature ==> procedure_of(request) == "GetTemperature"@,
        request is SetCharging ==> procedure_of(request) == "SetCharging"@,
        request is RemoveFile ==> procedure_of(request) == "RemoveFile"@,
        request is CreateArchive ==> procedure_of(request) == "CreateArchive"@,
        request is ExtractArchive ==> procedure_of(request) == "ExtractArchive"@,
        request is Chmod ==> procedure_of(request) == "Chmod"@,
        request is Chown ==> procedure_of(request) == "Chown"@,
        request is GetFileOwner ==> procedure_of(request) == "GetFileOwner"@,
        request is DiscoverFtraceEvents ==> procedure_of(request) == "DiscoverFtraceEvents"@,
        request is DiscoverPmuEvents ==> procedure_of(request) == "DiscoverPmuEvents"@,
        request is GetPmuHwCounters ==> procedure_of(request) == "GetPmuHwCounters"@,
        request is DiscoverGpuCounters ==> procedure_of(request) == "DiscoverGpuCounters"@,
        request is Screenshot ==> procedure_of(request) == "Screenshot"@,
        request is PullFile ==> procedure_of(request) == "PullFile"@,
        request is PushFile ==> procedure_of(request) == "PushFile"@,
        request is StartPerfetto ==> procedure_of(request) == "StartPerfetto"@,
        request is GetPerfettoStatus ==> procedure_of(request) == "GetPerfettoStatus"@,
        request is SetDeviceId ==> procedure_of(request) == "SetDeviceId"@,
        request is StartRtbStream ==> procedure_of(request) == "StartRtbStream"@,
        request is StartCrStream ==> procedure_of(request) == "StartCrStream"@,
        request is StartTcStream ==> procedure_of(request) == "StartTcStream"@,
        request is StartCmlStream ==> procedure_of(request) == "StartCmlStream"@,
        request is StartGcStream ==> procedure_of(request) == "StartGcStream"@,
{
}

/// A command is its code, then the length of its message with the highest
/// byte first, then the message.
pub proof fn law_a_command_is_code_length_message(opcode: u8, message: Seq<u8>)
    requires
        message.len() < 0x1_0000_0000,
    ensures
        ({
            let b = command(opcode, message);
            &&& b.len() == message.len() + 5
            &&& b[0] == opcode
            &&& b[1] * 0x100_0000 + b[2] * 0x1_0000 + b[3] * 0x100 + b[4] == message.len()
            &&& b.skip(5) == message
        }),
{
    let b = command(opcode, message);
    law_length_reads_back(message.len() as int);
    assert(b.skip(5) =~= message);
}

/// An accepted reply, and a status, are told by a zero byte; whatever is too
/// long is refused with its length, and whatever is short is waited for: a
/// message up to a mebibyte, a reason up to sixty-four kibibytes.
pub proof fn law_replies_are_read_within_bounds(b: Seq<u8>)
    ensures
        b.len() == 0 ==> reply_step(b) == ReplyStep::<Seq<u8>, SyncError<Seq<char>>>::Need(1)
            && status_step(b) == ReplyStep::<Seq<u8>, SyncError<Seq<char>>>::Need(1),
        b.len() > 0 && b[0] == 0 ==> status_step(b) == ReplyStep::<
            Seq<u8>,
            SyncError<Seq<char>>,
        >::Message(Seq::empty()),
        0 < b.len() < 5 ==> reply_step(b) == ReplyStep::<Seq<u8>, SyncError<Seq<char>>>::Need(5),
        b.len() > 0 && b[0] != 0 ==> status_step(b) == reply_step(b),
        b.len() >= 5 ==> ({
            let n = b[1] * 0x100_0000 + b[2] * 0x1_0000 + b[3] * 0x100 + b[4];
            &&& b[0] == 0 && n > 1048576 ==> reply_step(b) == ReplyStep::<
                Seq<u8>,
                SyncError<Seq<char>>,
            >::Failed(SyncError::ResponseTooLarge(n as usize))
            &&& b[0] == 0 && n <= 1048576 ==> if b.len() < 5 + n {
                reply_step(b) == ReplyStep::<Seq<u8>, SyncError<Seq<char>>>::Need((5 + n) as usize)
            } else {
                reply_step(b) == ReplyStep::<Seq<u8>, SyncError<Seq<char>>>::Message(
                    b.subrange(5, 5 + n),
                )
            }
            &&& b[0] != 0 && n > 65536 ==> reply_step(b) == ReplyStep::<
                Seq<u8>,
                SyncError<Seq<char>>,
            >::Failed(SyncError::ErrorTooLarge(n as usize))
            &&& b[0] != 0 && n <= 65536 ==> if b.len() < 5 + n {
                reply_step(b) == ReplyStep::<Seq<u8>, SyncError<Seq<char>>>::Need((5 + n) as usize)
            } else {
                reply_step(b) == ReplyStep::<Seq<u8>, SyncError<Seq<char>>>::Failed(
                    SyncError::Rejected(lossy_text(b.subrange(5, 5 + n))),
                )
            }
        }),
{
    if b.len() >= 5 {
        let s = b.subrange(1, 5);
        assert(s[0] == b[1] && s[1] == b[2] && s[2] == b[3] && s[3] == b[4]);
    }
}

/// The parts of a file come one after the other, each behind its length: a
/// message behind `skip` bytes is what its frame held.
#[verifier::rlimit(50)]
pub proof fn law_message_reads_back(before: Seq<u8>, message: Seq<u8>, after: Seq<u8>)
    requires
        message.len() <= 1048576,
    ensures
        message_step(before + framed(message) + after, before.len() as int) == ReplyStep::<
            Seq<u8>,
            SyncError<Seq<char>>,
        >::Message(message),
{
    let n = message.len() as int;
    law_length_reads_back(n);
    lemma_message_behind(before, length_bytes(n), message, after);
}

/// A message of the given length behind others is taken whole.
proof fn lemma_message_behind(
    before: Seq<u8>,
    length: Seq<u8>,
    message: Seq<u8>,
    after: Seq<u8>,
)
    requires
        length.len() == 4,
        length_value(length) == message.len(),
        message.len() <= 1048576,
    ensures
        message_step(before + (length + message) + after, before.len() as int) == ReplyStep::<
            Seq<u8>,
            SyncError<Seq<char>>,
        >::Message(message),
{
    let b = before + (length + message) + after;
    let skip = before.len() as int;
    let n = message.len() as int;
    let here = b.subrange(skip, skip + 4);
    assert(here =~= length);
    assert(b.subrange(skip + 4, skip + 4 + n) =~= message);
}

/// A stream that the daemon accepts begins; one that it refuses gives the
/// daemon's reason under the stream's name.
pub proof fn law_a_stream_begins_or_says_why(
    kind: StreamKind,
    status: u8,
    reason: Seq<u8>,
    after: Seq<u8>,
)
    requires
        reason.len() <= 65536,
    ensures
        start_step(kind, Seq::empty()) == ReplyStep::<Seq<u8>, SyncError<Seq<char>>>::Need(1),
        start_step(kind, seq![0u8] + after) == ReplyStep::<
            Seq<u8>,
            SyncError<Seq<char>>,
        >::Message(Seq::empty()),
        status != 0 ==> start_step(kind, seq![status] + framed(reason) + after) == ReplyStep::<
            Seq<u8>,
            SyncError<Seq<char>>,
        >::Failed(
            SyncError::StartRejected(
                match kind {
                    StreamKind::Rtb => "RTB"@,
                    StreamKind::Cr => "CR"@,
                    StreamKind::Tc => "TC"@,
                    StreamKind::Cml => "CML"@,
                    StreamKind::Gc => "GC"@,
                },
                lossy_text(reason),
            ),
        ),
{
    let b = seq![status] + framed(reason) + after;
    let n = reason.len() as int;
    law_length_reads_back(n);
    assert(b.subrange(1, 5) =~= length_bytes(n));
    assert(b.subrange(5, 5 + n) =~= reason);
}

/// Of a stream, a frame of one to a mebibyte of bytes is read whole; an empty
/// or a longer one ends it, with the length that it gave.
pub proof fn law_frames_are_read_within_bounds(kind: StreamKind, b: Seq<u8>)
    ensures
        b.len() < 4 ==> frame_step(kind, b) == ReplyStep::<Seq<u8>, SyncError<Seq<char>>>::Need(4),
        b.len() >= 4 ==> ({
            let n = b[0] * 0x100_0000 + b[1] * 0x1_0000 + b[2] * 0x100 + b[3];
            if n == 0 || n > 1048576 {
                frame_step(kind, b) == ReplyStep::<Seq<u8>, SyncError<Seq<char>>>::Failed(
                    SyncError::FrameLength(
                        if kind == StreamKind::Rtb { "RTB"@ } else { "stream"@ },
                        n as usize,
                    ),
                )
            } else if b.len() < 4 + n {
                frame_step(kind, b) == ReplyStep::<Seq<u8>, SyncError<Seq<char>>>::Need(
                    (4 + n) as usize,
                )
            } else {
                frame_step(kind, b) == ReplyStep::<Seq<u8>, SyncError<Seq<char>>>::Message(
                    b.subrange(4, 4 + n),
                )
            }
        }),
{
    if b.len() >= 4 {
        let s = b.subrange(0, 4);
        assert(s[0] == b[0] && s[1] == b[1] && s[2] == b[2] && s[3] == b[3]);
    }
}

/// Settings of a source profile are in order exactly where an app or a
/// process is named and neither the duration, nor the period, nor the buffer
/// is zero; and what is said is of the first that is not in order.
pub proof fn law_source_settings_name_the_first_fault(
    package_name: Seq<char>,
    pid: u32,
    duration_ms: u64,
    sample_period: u64,
    pages: u32,
)
    ensures
        ({
            let fault = source_settings_fault(package_name, pid, duration_ms, sample_period, pages);
            let named = !blank(package_name) || pid > 0;
            &&& fault is None <==> named && duration_ms > 0 && sample_period > 0 && pages > 0
            &&& !named ==> fault == Some("--package or --pid is required"@)
            &&& named && duration_ms == 0 ==> fault == Some("--duration-ms must be > 0"@)
            &&& named && duration_ms > 0 && sample_period == 0 ==> fault == Some(
                "--sample-period must be > 0"@,
            )
            &&& named && duration_ms > 0 && sample_period > 0 && pages == 0 ==> fault == Some(
                "--pmu-buffer-pages must be > 0"@,
            )
        }),
{
}

/// A frame is queued, silence is waited out, and anything else ends the
/// reading. A stream may end before the length of a frame is whole, and not
/// after. A stream over the control protocol is finished when its reading
/// ends; one over the service only where it measures latencies and was not
/// cancelled.
pub proof fn law_readers_stop_when_their_stream_ends(
    read: nat,
    kind: StreamKind,
    event: StreamEvent,
)
    ensures
        action_after(StreamEvent::Frame) is Queue,
        action_after(StreamEvent::Idle) is Wait,
        action_after(StreamEvent::Closed) is Stop,
        action_after(StreamEvent::Fault) is Stop,
        action_after(StreamEvent::Cancelled) is Stop,
        read < 4 ==> end_of_stream(read) is Closed,
        read >= 4 ==> end_of_stream(read) is Fault,
        finished_after(kind, true, event),
        finished_after(StreamKind::Cml, false, StreamEvent::Closed),
        finished_after(StreamKind::Cml, false, StreamEvent::Fault),
        !finished_after(kind, false, StreamEvent::Cancelled),
        !(kind is Cml) ==> !finished_after(kind, false, event),
{
}

} // verus!
