//! What calls come to for callers in other languages, whatever the daemon and
//! `adb` answer.
use vstd::prelude::*;
use crate::adb::commands::AdbCommand;
use crate::connect::{ConnectEnd, ConnectError, ConnectPlan};
use crate::double::Double;
use crate::ffi::calls::{Exchange, exchange, stopped_over_control};
use crate::ffi::device::{command_failure, commanded, held_error, panic_words, plain_plan, planned};
use crate::ffi::options::{
    capability_asked, chosen_options, field_text, field_texts, numbers_of, start_asked,
};
use crate::ffi::outcome::{
    Reply, Verdict, connect_result, control_verdict, left_behind, service_verdict,
};
use crate::ffi::streams::{
    ArchiveStream, SourceCall, SourceExchange, archive_begun, source_begun, source_failure, stopped,
    streams_of, waiting_room,
};
use crate::ffi::types::{
    ProfilerResult, ProfilerRtbOptions, ProfilerSourceCapabilityOptions, ProfilerSourceStartOptions,
};
use crate::grpc::client::{SourceProfileCapabilityOptions, SourceProfileStartOptions};
use crate::grpc::streaming::StreamKind;
use crate::number::decimal;
use crate::proto::{CallModel, Request};
use crate::runtime::{Runtime, RuntimeState};
use crate::text::{blank, texts};
use crate::wide::{list_units, narrow, narrow_list};

verus! {

/// What came back, as contracts speak of it.
pub type Answer = Reply<Seq<char>>;

/// Results are told by these numbers.
pub proof fn law_results_have_their_numbers()
    ensures
        ProfilerResult::Success.number() == 0,
        ProfilerResult::DeviceNotFound.number() == 1,
        ProfilerResult::DaemonNotRunning.number() == 2,
        ProfilerResult::ConnectionFailed.number() == 3,
        ProfilerResult::OperationFailed.number() == 4,
        ProfilerResult::InvalidParameter.number() == 5,
        ProfilerResult::Unknown.number() == 99,
{
}

// ---------------------------------------------------------------------------
// What a call comes to
// ---------------------------------------------------------------------------

/// Whether a verdict is that the call succeeded: nothing is remembered of it
/// and the connection stays.
pub open spec fn succeeds(v: Verdict<Seq<char>>) -> bool {
    v.result == ProfilerResult::Success && v.last_error is None && !v.drop_connection
}

/// Whether a verdict is that the operation failed and `e` is remembered of it;
/// the connection stays.
pub open spec fn fails(v: Verdict<Seq<char>>, e: Option<Seq<char>>) -> bool {
    v.result == ProfilerResult::OperationFailed && v.last_error == e && !v.drop_connection
}

/// Over the control protocol an answer is a success, and a status is one where
/// it says so. The end of a recording is one whatever its status says. Where
/// the daemon refuses, what it says is remembered of a trace, an input and a
/// device's name, and nothing of anything else; an input of which it says
/// nothing is remembered by its name.
pub proof fn law_control_refusals_are_remembered(call: CallModel, message: Seq<char>)
    ensures
        control_verdict(call, Answer::Answered) is Some && succeeds(
            control_verdict(call, Answer::Answered)->Some_0,
        ),
        control_verdict(call, Answer::Failed(message)) is None,
        ({
            let yes = control_verdict(call, (Answer::Status { success: true, message }));
            let no = control_verdict(call, (Answer::Status { success: false, message }));
            &&& yes is Some && succeeds(yes->Some_0)
            &&& no is Some
            &&& match call {
                Request::StopRecording { .. } => succeeds(no->Some_0),
                Request::StartPerfetto { .. } => fails(
                    no->Some_0,
                    Some("perfetto start rejected by sync daemon: "@ + message),
                ),
                Request::SetDeviceId { .. } => fails(no->Some_0, Some(message)),
                Request::InputTap { .. } => if blank(message) {
                    fails(no->Some_0, Some("InputTap sync command returned failure"@))
                } else {
                    fails(no->Some_0, Some(message))
                },
                Request::InputSwipe { .. } => if blank(message) {
                    fails(no->Some_0, Some("InputSwipe sync command returned failure"@))
                } else {
                    fails(no->Some_0, Some(message))
                },
                Request::InputText { .. } => if blank(message) {
                    fails(no->Some_0, Some("InputText sync command returned failure"@))
                } else {
                    fails(no->Some_0, Some(message))
                },
                Request::InputKeyEvent { .. } => if blank(message) {
                    fails(no->Some_0, Some("InputKeyEvent sync command returned failure"@))
                } else {
                    fails(no->Some_0, Some(message))
                },
                _ => fails(no->Some_0, None),
            }
        }),
{
}

/// Over the service an answer is a success, and a status is one where it says
/// so; taps, swipes, keys and the end of a recording are successes whatever
/// the status says. Where the daemon refuses, what it says is remembered of a
/// trace, a text and a device's name, and nothing of anything else.
pub proof fn law_service_refusals_are_remembered(
    call: CallModel,
    local_path: Seq<char>,
    message: Seq<char>,
)
    ensures
        succeeds(service_verdict(call, local_path, Answer::Answered)),
        succeeds(
            service_verdict(call, local_path, (Answer::Status { success: true, message })),
        ),
        ({
            let no = service_verdict(
                call,
                local_path,
                (Answer::Status { success: false, message }),
            );
            match call {
                Request::StopRecording { .. } => succeeds(no),
                Request::InputTap { .. } => succeeds(no),
                Request::InputSwipe { .. } => succeeds(no),
                Request::InputKeyEvent { .. } => succeeds(no),
                Request::StartPerfetto { .. } => fails(
                    no,
                    Some("perfetto start rejected by daemon: "@ + message),
                ),
                Request::InputText { .. } => if blank(message) {
                    fails(no, Some("InputText RPC returned failure"@))
                } else {
                    fails(no, Some(message))
                },
                Request::SetDeviceId { .. } => fails(no, Some(message)),
                _ => fails(no, None),
            }
        }),
{
}

/// A daemon that does not answer a health check is not running, and its
/// connection is given up. Any other call that is not answered has failed, and
/// the error is remembered of a trace, a text, a device's name, a command, a
/// file that is sent, and the streams of latencies and of graphics counters.
pub proof fn law_service_failures_are_remembered(
    call: CallModel,
    local_path: Seq<char>,
    e: Seq<char>,
)
    ensures
        ({
            let v = service_verdict(call, local_path, Answer::Failed(e));
            match call {
                Request::Health => v.result == ProfilerResult::DaemonNotRunning && v.last_error
                    is None && v.drop_connection,
                Request::StartPerfetto { .. } => fails(
                    v,
                    Some("failed to start perfetto trace via gRPC: "@ + e),
                ),
                Request::InputText { .. } => fails(v, Some("InputText RPC failed: "@ + e)),
                Request::SetDeviceId { .. } => fails(v, Some("SetDeviceId RPC failed: "@ + e)),
                Request::Shell { command } => fails(
                    v,
                    Some("profiler_shell failed. command='"@ + command + "', error="@ + e),
                ),
                Request::PushFile { remote_path } => fails(
                    v,
                    Some(
                        "profiler_push_file failed. local='"@ + local_path + "', remote='"@
                            + remote_path + "', error="@ + e,
                    ),
                ),
                Request::StartCmlStream { .. } => fails(v, Some("profiler_start_cml: "@ + e)),
                Request::StartGcStream { .. } => fails(v, Some(e)),
                _ => fails(v, None),
            }
        }),
{
}

/// What a verdict leaves behind: a device whose connection is given up is
/// linked no more, and every other stays as it was.
pub proof fn law_connections_are_kept_or_given_up<C, H>(
    before: RuntimeState<C, H>,
    serial: Seq<char>,
    other: Seq<char>,
    v: Verdict<Seq<char>>,
    after: RuntimeState<C, H>,
)
    requires
        left_behind(before, serial, v, after),
        other != serial,
    ensures
        v.drop_connection ==> !after.connections@.contains_key(serial),
        !v.drop_connection ==> after.connections@ == before.connections@,
        after.connections@.contains_key(other) == before.connections@.contains_key(other),
        after.connections@.contains_key(other) ==> after.connections@[other]
            == before.connections@[other],
        v.last_error is Some ==> after.last_error@ == v.last_error->Some_0,
        v.last_error is None ==> after.last_error@ == before.last_error@,
        after.rtb == before.rtb,
        after.cr == before.cr,
        after.tc == before.tc,
        after.cml == before.cml,
        after.gc == before.gc,
{
}

/// What a connection comes to: a device that is not listed was not found, a
/// daemon that cannot be reached or did not stay alive is not running, and
/// anything else that went wrong is a failed operation.
pub proof fn law_connections_come_to_their_results(m: Seq<char>)
    ensures
        connect_result(ConnectEnd::Connected) == ProfilerResult::Success,
        connect_result(ConnectEnd::Failed(ConnectError::DeviceNotFound))
            == ProfilerResult::DeviceNotFound,
        connect_result(ConnectEnd::Failed(ConnectError::NotAlive))
            == ProfilerResult::DaemonNotRunning,
        connect_result(ConnectEnd::Failed(ConnectError::DaemonUnreachable(m)))
            == ProfilerResult::DaemonNotRunning,
        connect_result(ConnectEnd::Failed(ConnectError::DevicesUnlisted(m)))
            == ProfilerResult::OperationFailed,
        connect_result(ConnectEnd::Failed(ConnectError::DeployFailed(m)))
            == ProfilerResult::OperationFailed,
        connect_result(ConnectEnd::Failed(ConnectError::ForwardFailed(m)))
            == ProfilerResult::OperationFailed,
        connect_result(ConnectEnd::Failed(ConnectError::SyncForwardFailed(m)))
            == ProfilerResult::OperationFailed,
        connect_result(ConnectEnd::Failed(ConnectError::PortOverflow))
            == ProfilerResult::OperationFailed,
        connect_result(ConnectEnd::Failed(ConnectError::LazyFailed(m)))
            == ProfilerResult::OperationFailed,
{
}

// ---------------------------------------------------------------------------
// Requests
// ---------------------------------------------------------------------------

/// Whether a device has a connection.
pub open spec fn connected<C, H>(rt: Runtime<C, H>, serial: Seq<char>) -> bool {
    rt.state is Some && rt.state->Some_0.connections@.contains_key(serial)
}

/// A call without a serial number or with an argument missing is refused as
/// such, before anything else is looked at; one for a device that has no
/// connection, as that. Any other becomes the request that it asks for, for
/// that device, and goes to the port behind that of the daemon where it may go
/// over the control protocol and the daemon speaks it.
pub proof fn law_calls_go_to_their_device<C, H>(
    rt: Runtime<C, H>,
    serial: Option<&Vec<u16>>,
    complete: bool,
    over_control: bool,
    local_path: Seq<char>,
    call: CallModel,
    r: Result<Exchange, ProfilerResult>,
)
    requires
        exchange(rt, serial, complete, over_control, local_path, call, r),
    ensures
        r is Ok <==> serial is Some && complete && connected(rt, narrow(Some(serial->Some_0@))),
        serial is None || !complete ==> r == Err::<Exchange, ProfilerResult>(
            ProfilerResult::InvalidParameter,
        ),
        serial is Some && complete && !connected(rt, narrow(Some(serial->Some_0@))) ==> r == Err::<
            Exchange,
            ProfilerResult,
        >(ProfilerResult::DeviceNotFound),
        r matches Ok(x) ==> {
            let entry = rt.state->Some_0.connections@[x.serial@];
            &&& x.serial@ == narrow(Some(serial->Some_0@))
            &&& x.local_path@ == local_path
            &&& x.call@ == call
            &&& x.sync_addr is Some <==> over_control && entry.daemon_low_overhead && entry.port
                < 65535
            &&& x.sync_addr is Some ==> x.sync_addr->Some_0@ == "127.0.0.1:"@
                + decimal((entry.port + 1) as nat)
        },
{
}

/// The end of a recording goes over the control protocol where it is that of
/// all recordings, of the real-time stream or of a trace.
pub proof fn law_recordings_are_stopped_over_control(session_type: Seq<char>)
    ensures
        stopped_over_control(Seq::empty()),
        stopped_over_control("rtb"@),
        stopped_over_control("perfetto"@),
        session_type.len() > 0 && session_type != "rtb"@ && session_type != "perfetto"@
            ==> !stopped_over_control(session_type),
{
}

/// An archive is streamed over the control protocol only: where the daemon
/// does not speak it, the operation fails and that is remembered.
pub proof fn law_archives_need_the_control_protocol<C, H>(
    rt: Runtime<C, H>,
    serial: Option<&Vec<u16>>,
    complete: bool,
    working_directory: Seq<char>,
    target: Option<Seq<char>>,
    local_path: Seq<char>,
    r: Result<ArchiveStream, Verdict<String>>,
)
    requires
        archive_begun(rt, serial, complete, working_directory, target, local_path, r),
    ensures
        serial is None || !complete ==> r is Err && r->Err_0.result
            == ProfilerResult::InvalidParameter && r->Err_0.last_error is None,
        serial is Some && complete && !connected(rt, narrow(Some(serial->Some_0@))) ==> r is Err
            && r->Err_0.result == ProfilerResult::DeviceNotFound && r->Err_0.last_error is None,
        serial is Some && complete && connected(rt, narrow(Some(serial->Some_0@))) ==> ({
            let entry = rt.state->Some_0.connections@[narrow(Some(serial->Some_0@))];
            if entry.daemon_low_overhead && entry.port < 65535 {
                &&& r is Ok
                &&& r->Ok_0.serial@ == narrow(Some(serial->Some_0@))
                &&& r->Ok_0.sync_addr@ == "127.0.0.1:"@ + decimal(
                    (entry.port + 1) as nat,
                )
                &&& r->Ok_0.working_directory@ == working_directory
                &&& r->Ok_0.local_path@ == local_path
                &&& r->Ok_0.target is Some <==> target is Some
                &&& target is Some ==> r->Ok_0.target->Some_0@ == target->Some_0
            } else {
                &&& r is Err
                &&& r->Err_0.result == ProfilerResult::OperationFailed
                &&& r->Err_0.last_error is Some
                &&& r->Err_0.last_error->Some_0@
                    == "sync control is required for lz4 archive stream"@
            }
        }),
        r is Err ==> !r->Err_0.drop_connection,
{
    if r is Err {
        assert(r->Err_0@.drop_connection == r->Err_0.drop_connection);
        assert(r->Err_0@.result == r->Err_0.result);
        assert(r->Err_0@.last_error is Some <==> r->Err_0.last_error is Some);
    }
}

/// A request for a profile by source is for a connected device, and holds what
/// was asked for.
pub proof fn law_source_requests_go_to_their_device<C, H, R>(
    rt: Runtime<C, H>,
    serial: Option<&Vec<u16>>,
    complete: bool,
    asked: spec_fn(R) -> bool,
    r: Result<SourceExchange<R>, ProfilerResult>,
)
    requires
        source_begun(rt, serial, complete, asked, r),
    ensures
        serial is None || !complete ==> r is Err && r->Err_0 == ProfilerResult::InvalidParameter,
        serial is Some && complete && !connected(rt, narrow(Some(serial->Some_0@))) ==> r is Err
            && r->Err_0 == ProfilerResult::DeviceNotFound,
        serial is Some && complete && connected(rt, narrow(Some(serial->Some_0@))) ==> r is Ok
            && r->Ok_0.serial@ == narrow(Some(serial->Some_0@)) && asked(r->Ok_0.request),
{
}

/// What is remembered of a request for a profile by source that failed names
/// the request.
pub proof fn law_source_failures_name_their_request(e: Seq<char>)
    ensures
        source_failure(SourceCall::Capability, e) == "source profile capability failed: "@ + e,
        source_failure(SourceCall::Start, e) == "source profile start failed: "@ + e,
        source_failure(SourceCall::Status, e) == "source profile status failed: "@ + e,
        source_failure(SourceCall::Stop, e) == "source profile stop failed: "@ + e,
        source_failure(SourceCall::PullBundle, e) == "pull source bundle failed: "@ + e,
{
}

// ---------------------------------------------------------------------------
// Streams
// ---------------------------------------------------------------------------

/// Each kind of stream has handles of its own.
pub proof fn law_streams_have_their_own_handles<C, H>(s: RuntimeState<C, H>)
    ensures
        streams_of(s, StreamKind::Rtb) == s.rtb,
        streams_of(s, StreamKind::Cr) == s.cr,
        streams_of(s, StreamKind::Tc) == s.tc,
        streams_of(s, StreamKind::Cml) == s.cml,
        streams_of(s, StreamKind::Gc) == s.gc,
{
}

/// A stream that runs is stopped and handed back; its number is not handed out
/// again, and no other stream is touched. A number that belongs to no running
/// stream of the kind is refused.
pub proof fn law_only_the_stream_asked_for_is_stopped<C, H>(
    before: RuntimeState<C, H>,
    after: RuntimeState<C, H>,
    kind: StreamKind,
    id: u64,
    other_kind: StreamKind,
    other_id: u64,
    r: (ProfilerResult, Option<H>),
)
    requires
        stopped(before, after, kind, id, r),
    ensures
        streams_of(before, kind)@.contains_key(id) ==> r == (
            ProfilerResult::Success,
            Some(streams_of(before, kind)@[id]),
        ),
        !streams_of(before, kind)@.contains_key(id) ==> r == (
            ProfilerResult::InvalidParameter,
            None::<H>,
        ),
        !streams_of(after, kind)@.contains_key(id),
        other_kind != kind || other_id != id ==> (streams_of(after, other_kind)@.contains_key(
            other_id,
        ) == streams_of(before, other_kind)@.contains_key(other_id)),
        (other_kind != kind || other_id != id) && streams_of(before, other_kind)@.contains_key(
            other_id,
        ) ==> streams_of(after, other_kind)@[other_id] == streams_of(before, other_kind)@[other_id],
        streams_of(after, other_kind).next_id() == streams_of(before, other_kind).next_id(),
        after.connections == before.connections,
        after.last_error == before.last_error,
{
    assert(streams_of(after, other_kind) == streams_of(before, other_kind) || other_kind == kind);
}

// ---------------------------------------------------------------------------
// Devices
// ---------------------------------------------------------------------------

/// A connection is planned where all that it needs is given. One without a
/// deployment asks for the given device and port and nothing else.
pub proof fn law_connections_are_planned_as_given(
    given: bool,
    serial: Seq<char>,
    port: u16,
    r: Result<ConnectPlan<String>, ProfilerResult>,
)
    requires
        planned(given, plain_plan(serial, port), r),
    ensures
        !given ==> r is Err && r->Err_0 == ProfilerResult::InvalidParameter,
        given ==> {
            &&& r is Ok
            &&& r->Ok_0.serial@ == serial
            &&& r->Ok_0.port == port
            &&& r->Ok_0.local_path@.len() == 0
            &&& r->Ok_0.remote_path@.len() == 0
            &&& !r->Ok_0.low_overhead
            &&& !r->Ok_0.deploy
            &&& !r->Ok_0.strict
        },
{
    if given {
        assert(r->Ok_0@.serial == serial);
        assert(r->Ok_0@.local_path == Seq::<char>::empty());
        assert(r->Ok_0@.remote_path == Seq::<char>::empty());
        assert(r->Ok_0@.port == port);
        assert(r->Ok_0@.low_overhead == r->Ok_0.low_overhead);
        assert(r->Ok_0@.deploy == r->Ok_0.deploy);
        assert(r->Ok_0@.strict == r->Ok_0.strict);
    }
}

/// A command is given to `adb` as it was asked for. One with an argument
/// missing is refused as such; before the library was initialised any other
/// has failed.
pub proof fn law_commands_need_their_arguments<C, H>(
    rt: Runtime<C, H>,
    given: bool,
    c: AdbCommand<Seq<char>>,
    r: Result<AdbCommand<String>, ProfilerResult>,
)
    requires
        commanded(rt, given, c, r),
    ensures
        r is Ok <==> given && rt.state is Some,
        r is Ok ==> r->Ok_0@ == c,
        !given ==> r is Err && r->Err_0 == ProfilerResult::InvalidParameter,
        given && rt.state is None ==> r is Err && r->Err_0 == ProfilerResult::OperationFailed,
{
}

/// A command of `adb`, as contracts speak of it.
pub type Command = AdbCommand<Seq<char>>;

/// What is remembered of a command that `adb` failed to carry out names the
/// command; nothing is remembered of those whose failure is told otherwise.
pub proof fn law_command_failures_name_their_command(
    serial: Seq<char>,
    a: Seq<char>,
    b: Seq<char>,
    m: u16,
    n: u16,
    e: Seq<char>,
)
    ensures
        command_failure((Command::Pull { serial, remote: a, local: b }), e) == Some(e),
        command_failure((Command::Reverse { serial, device_port: m, host_port: n }), e) == Some(
            "profiler_adb_reverse failed: "@ + e,
        ),
        command_failure((Command::ReverseRemove { serial, device_port: m }), e) == Some(
            "profiler_adb_reverse_remove failed: "@ + e,
        ),
        command_failure((Command::Tcpip { serial, port: m }), e) == Some(
            "adb tcpip failed: "@ + e,
        ),
        command_failure((Command::Connect { ip: a, port: m }), e) == Some(
            "adb connect failed: "@ + e,
        ),
        command_failure((Command::Disconnect { serial }), e) == Some(
            "adb disconnect failed: "@ + e,
        ),
        command_failure(Command::Devices, e) is None,
        command_failure((Command::Shell { serial, command: a }), e) is None,
        command_failure((Command::Push { serial, local: a, remote: b }), e) is None,
        command_failure((Command::Root { serial }), e) is None,
        command_failure((Command::Remount { serial }), e) is None,
        command_failure(Command::DisconnectAll, e) is None,
        command_failure((Command::Forward { serial, local_port: m, remote_port: n }), e) is None,
{
}

/// What is remembered of a panic names the function in which it was, and what
/// it said where that is a text. The error that callers are told is the one
/// that is remembered; before the library was initialised there is none.
pub proof fn law_panics_name_their_function<C, H>(
    function: Seq<char>,
    said: Seq<char>,
    rt: Runtime<C, H>,
)
    ensures
        panic_words(function, Some(said)) == function + " panicked: "@ + said,
        panic_words(function, None) == function + " panicked (unknown payload)"@,
        rt.state is None ==> held_error(rt).len() == 0,
        rt.state is Some ==> held_error(rt) == rt.state->Some_0.last_error@,
{
}

// ---------------------------------------------------------------------------
// Options
// ---------------------------------------------------------------------------

/// A stream measures what its options ask for, one for one. Without options
/// the mode decides: `mperf` asks for the frame rate at the display and for
/// the power, any other for nothing.
pub proof fn law_streams_measure_what_is_asked_for(o: ProfilerRtbOptions, mode: Seq<char>)
    ensures
        ({
            let r = chosen_options(Some(o), mode);
            &&& r.enable_cpu_loading == o.enable_cpu_loading
            &&& r.enable_cpu_freq == o.enable_cpu_freq
            &&& r.enable_fps_dequeue == o.enable_fps_dequeue
            &&& r.enable_fps_queue == o.enable_fps_queue
            &&& r.enable_fps_present_fence == o.enable_fps_present_fence
            &&& r.enable_gpu == o.enable_gpu
            &&& r.use_dumpsys_fps == o.use_dumpsys_fps
            &&& r.enable_power == o.enable_power
            &&& r.enable_temperature == o.enable_temperature
            &&& r.enable_dvfs == o.enable_dvfs
            &&& r.enable_memory == o.enable_memory
            &&& r.enable_total_mips == o.enable_total_mips
            &&& r.enable_thread_mips == o.enable_thread_mips
            &&& r.warmup_secs == o.warmup_secs
        }),
        ({
            let r = chosen_options(None, mode);
            &&& r.enable_fps_present_fence <==> mode == "mperf"@
            &&& r.enable_power <==> mode == "mperf"@
            &&& !r.enable_cpu_loading && !r.enable_cpu_freq
            &&& !r.enable_fps_dequeue && !r.enable_fps_queue
            &&& !r.enable_gpu && !r.use_dumpsys_fps
            &&& !r.enable_temperature && !r.enable_dvfs && !r.enable_memory
            &&& !r.enable_total_mips && !r.enable_thread_mips
            &&& r.warmup_secs == Double::nought()
        }),
{
}

/// A text that was handed in is read up to its zero; one that was not is
/// empty. Of a list, the empty and the missing texts are left out.
pub proof fn law_fields_are_read_as_handed_in(
    w: Option<Vec<u16>>,
    list: Option<Vec<Option<Vec<u16>>>>,
    n: Option<Vec<i32>>,
)
    ensures
        w is None ==> field_text(w).len() == 0,
        w is Some ==> field_text(w) == narrow(Some(w->Some_0@)),
        list is None ==> field_texts(list).len() == 0,
        list is Some && list->Some_0@.len() == 0 ==> field_texts(list).len() == 0,
        list is Some && list->Some_0@.len() == 1 && field_text(list->Some_0@[0]).len() > 0
            ==> field_texts(list) == seq![field_text(list->Some_0@[0])],
        list is Some && list->Some_0@.len() == 1 && field_text(list->Some_0@[0]).len() == 0
            ==> field_texts(list).len() == 0,
        n is None ==> numbers_of(n).len() == 0,
        n is Some ==> numbers_of(n) == n->Some_0@,
{
    if list is Some && list->Some_0@.len() == 1 {
        let units = list_units(list->Some_0@);
        assert(units.len() == 1);
        assert(units.drop_last() =~= Seq::<Option<Seq<u16>>>::empty());
        assert(narrow_list(units.drop_last()) =~= Seq::<Seq<char>>::empty());
        assert(narrow(units.last()) == field_text(list->Some_0@[0]));
        assert(field_texts(list) == narrow_list(units));
    }
}

/// A scan for what can be profiled by source asks for what was handed in, one
/// for one.
pub proof fn law_scans_ask_for_what_was_handed_in(
    o: ProfilerSourceCapabilityOptions,
    r: SourceProfileCapabilityOptions,
)
    requires
        capability_asked(o, r),
    ensures
        r.package_name@ == field_text(o.package_name),
        r.pid == o.pid,
        r.cpu_selection.all_cpus == o.cpu_selection.all_cpus,
        o.cpu_selection.cpus is None ==> r.cpu_selection.cpus@.len() == 0,
        o.cpu_selection.cpus is Some ==> r.cpu_selection.cpus@ == o.cpu_selection.cpus->Some_0@,
        texts(r.cpu_selection.clusters@) == field_texts(o.cpu_selection.clusters),
        r.enable_pmu == o.enable_pmu,
        r.enable_spe == o.enable_spe,
        texts(r.requested_metric_groups@) == field_texts(o.requested_metric_groups),
{
}

/// A profile by source asks for what was handed in, one for one. The scope and
/// the filter are told by one for the narrower choice and by any other number
/// for the usual one.
pub proof fn law_profiles_ask_for_what_was_handed_in(
    o: ProfilerSourceStartOptions,
    r: SourceProfileStartOptions,
    i: int,
)
    requires
        start_asked(o, r),
    ensures
        r.package_name@ == field_text(o.package_name),
        r.pid == o.pid,
        r.cpu_selection.all_cpus == o.cpu_selection.all_cpus,
        o.cpu_selection.cpus is None ==> r.cpu_selection.cpus@.len() == 0,
        o.cpu_selection.cpus is Some ==> r.cpu_selection.cpus@ == o.cpu_selection.cpus->Some_0@,
        texts(r.cpu_selection.clusters@) == field_texts(o.cpu_selection.clusters),
        r.enable_pmu == o.enable_pmu,
        r.enable_spe == o.enable_spe,
        r.duration_ms == o.duration_ms,
        r.pmu_buffer_pages == o.pmu_buffer_pages,
        r.pmu_max_output_bytes == o.pmu_max_output_bytes,
        r.spe_aux_buffer_bytes == o.spe_aux_buffer_bytes,
        r.spe_max_output_bytes == o.spe_max_output_bytes,
        r.spe_ring_buffer_pages == o.spe_ring_buffer_pages,
        r.spe_capture_scope is CpuOnlySystemWide <==> o.spe_capture_scope == 1,
        r.spe_operation_filter is MemoryBranchOnly <==> o.spe_operation_filter == 1,
        r.sample_period == o.sample_period,
        r.callchain_depth == o.callchain_depth,
        r.output_remote_root@ == field_text(o.output_remote_root),
        texts(r.requested_event_keys@) == field_texts(o.requested_event_keys),
        texts(r.debug_elf_hints@) == field_texts(o.debug_elf_hints),
        texts(r.source_root_hints@) == field_texts(o.source_root_hints),
        o.path_remaps is None ==> r.path_remaps@.len() == 0,
        o.path_remaps is Some ==> r.path_remaps@.len() == o.path_remaps->Some_0@.len(),
        o.path_remaps is Some && 0 <= i < r.path_remaps@.len() ==> r.path_remaps@[i].from@
            == field_text(o.path_remaps->Some_0@[i].from) && r.path_remaps@[i].to@ == field_text(
            o.path_remaps->Some_0@[i].to,
        ),
        r.bundle_device_debug_elfs == o.bundle_device_debug_elfs,
{
    if 0 <= i < r.path_remaps@.len() {
        let one = r.path_remaps@[i];
    }
}

/// Up to 64 latencies and up to 512 samples of any other stream wait for their
/// caller.
pub proof fn law_samples_wait_for_their_caller()
    ensures
        waiting_room(StreamKind::Cml) == 64,
        waiting_room(StreamKind::Rtb) == 512,
        waiting_room(StreamKind::Cr) == 512,
        waiting_room(StreamKind::Tc) == 512,
        waiting_room(StreamKind::Gc) == 512,
{
}

} // verus!
