//! What a call comes to once its request was sent: the result for the caller,
//! the error that is remembered, and whether the connection is given up.
use vstd::prelude::*;
use crate::connect::{ConnectEnd, ConnectError};
use crate::core_api::is_linked;
use crate::ffi::calls::{Exchange, exchange, text_given};
use crate::ffi::types::ProfilerResult;
use crate::proto::{CallModel, Request};
use crate::runtime::{Runtime, RuntimeState};
use crate::text::{blank, concat2, concat4, is_blank};

verus! {

/// What came back for a request. `S` is the type of its texts.
#[derive(Debug)]
pub enum Reply<S> {
    /// What was asked for.
    Answered,
    /// Whether the daemon did what it was asked to do, and what it says of it.
    Status { success: bool, message: S },
    /// Nothing, for the given reason.
    Failed(S),
}

impl View for Reply<String> {
    type V = Reply<Seq<char>>;

    open spec fn view(&self) -> Reply<Seq<char>> {
        match self {
            Reply::Answered => Reply::Answered,
            Reply::Status { success, message } => Reply::Status {
                success: *success,
                message: message@,
            },
            Reply::Failed(e) => Reply::Failed(e@),
        }
    }
}

/// What a call comes to. `S` is the type of its text.
#[derive(Debug)]
pub struct Verdict<S> {
    /// The result for the caller.
    pub result: ProfilerResult,
    /// The error that is remembered.
    pub last_error: Option<S>,
    /// Whether the connection is given up.
    pub drop_connection: bool,
}

impl View for Verdict<String> {
    type V = Verdict<Seq<char>>;

    open spec fn view(&self) -> Verdict<Seq<char>> {
        Verdict {
            result: self.result,
            last_error: match self.last_error {
                Some(m) => Some(m@),
                None => None,
            },
            drop_connection: self.drop_connection,
        }
    }
}

/// A call that went well.
pub open spec fn went_well() -> Verdict<Seq<char>> {
    Verdict { result: ProfilerResult::Success, last_error: None, drop_connection: false }
}

/// A call that failed.
pub open spec fn went_wrong(last_error: Option<Seq<char>>) -> Verdict<Seq<char>> {
    Verdict { result: ProfilerResult::OperationFailed, last_error, drop_connection: false }
}

/// What the daemon says, or `other` where it says nothing.
pub open spec fn said_or(message: Seq<char>, other: Seq<char>) -> Seq<char> {
    if blank(message) {
        other
    } else {
        message
    }
}

/// What is remembered where the daemon refuses over the control protocol.
pub open spec fn control_refusal(call: CallModel, message: Seq<char>) -> Option<Seq<char>> {
    match call {
        Request::StartPerfetto { .. } => Some(
            "perfetto start rejected by sync daemon: "@ + message,
        ),
        Request::InputTap { .. } => Some(
            said_or(message, "InputTap sync command returned failure"@),
        ),
        Request::InputSwipe { .. } => Some(
            said_or(message, "InputSwipe sync command returned failure"@),
        ),
        Request::InputText { .. } => Some(
            said_or(message, "InputText sync command returned failure"@),
        ),
        Request::InputKeyEvent { .. } => Some(
            said_or(message, "InputKeyEvent sync command returned failure"@),
        ),
        Request::SetDeviceId { .. } => Some(message),
        _ => None,
    }
}

/// What is remembered where the daemon refuses over the service.
pub open spec fn service_refusal(call: CallModel, message: Seq<char>) -> Option<Seq<char>> {
    match call {
        Request::StartPerfetto { .. } => Some("perfetto start rejected by daemon: "@ + message),
        Request::InputText { .. } => Some(said_or(message, "InputText RPC returned failure"@)),
        Request::SetDeviceId { .. } => Some(message),
        _ => None,
    }
}

/// What is remembered where the service gives nothing back.
pub open spec fn service_failure(
    call: CallModel,
    local_path: Seq<char>,
    e: Seq<char>,
) -> Option<Seq<char>> {
    match call {
        Request::StartPerfetto { .. } => Some("failed to start perfetto trace via gRPC: "@ + e),
        Request::InputText { .. } => Some("InputText RPC failed: "@ + e),
        Request::SetDeviceId { .. } => Some("SetDeviceId RPC failed: "@ + e),
        Request::Shell { command } => Some(
            "profiler_shell failed. command='"@ + command + "', error="@ + e,
        ),
        Request::PushFile { remote_path } => Some(
            "profiler_push_file failed. local='"@ + local_path + "', remote='"@ + remote_path
                + "', error="@ + e,
        ),
        Request::StartCmlStream { .. } => Some("profiler_start_cml: "@ + e),
        Request::StartGcStream { .. } => Some(e),
        _ => None,
    }
}

/// Whether any answer over the control protocol counts as success.
pub open spec fn control_passes_status(call: CallModel) -> bool {
    call is StopRecording
}

/// Whether any answer over the service counts as success.
pub open spec fn service_passes_status(call: CallModel) -> bool {
    call is StopRecording || call is InputTap || call is InputSwipe || call is InputKeyEvent
}

/// What a call comes to over the control protocol; where nothing came back,
/// nothing is decided, and the service is asked.
pub open spec fn control_verdict(call: CallModel, reply: Reply<Seq<char>>) -> Option<
    Verdict<Seq<char>>,
> {
    match reply {
        Reply::Failed(_) => None,
        Reply::Answered => Some(went_well()),
        Reply::Status { success, message } => if success || control_passes_status(call) {
            Some(went_well())
        } else {
            Some(went_wrong(control_refusal(call, message)))
        },
    }
}

/// What a call comes to over the service. A daemon that does not answer a
/// health check is given up.
pub open spec fn service_verdict(
    call: CallModel,
    local_path: Seq<char>,
    reply: Reply<Seq<char>>,
) -> Verdict<Seq<char>> {
    match reply {
        Reply::Answered => went_well(),
        Reply::Status { success, message } => if success || service_passes_status(call) {
            went_well()
        } else {
            went_wrong(service_refusal(call, message))
        },
        Reply::Failed(e) => if call is Health {
            Verdict {
                result: ProfilerResult::DaemonNotRunning,
                last_error: None,
                drop_connection: true,
            }
        } else {
            went_wrong(service_failure(call, local_path, e))
        },
    }
}

fn well() -> (v: Verdict<String>)
    ensures
        v@ == went_well(),
{
    Verdict { result: ProfilerResult::Success, last_error: None, drop_connection: false }
}

fn wrong(last_error: Option<String>) -> (v: Verdict<String>)
    ensures
        v@ == went_wrong(
            match last_error {
                Some(m) => Some(m@),
                None => None,
            },
        ),
{
    Verdict { result: ProfilerResult::OperationFailed, last_error, drop_connection: false }
}

fn spoken(message: String, other: &str) -> (s: String)
    ensures
        s@ == said_or(message@, other@),
{
    if is_blank(message.as_str()) {
        other.to_string()
    } else {
        message
    }
}

/// What a call comes to over the control protocol; nothing where the service
/// is to be asked.
pub fn control_outcome(x: &Exchange, reply: Reply<String>) -> (v: Option<Verdict<String>>)
    ensures
        match control_verdict(x.call@, reply@) {
            Some(w) => v is Some && v->Some_0@ == w,
            None => v is None,
        },
{
    match reply {
        Reply::Failed(_) => None,
        Reply::Answered => Some(well()),
        Reply::Status { success, message } => {
            if success {
                return Some(well());
            }
            match &x.call {
                Request::StopRecording { .. } => Some(well()),
                Request::StartPerfetto { .. } => Some(
                    wrong(
                        Some(
                            concat2("perfetto start rejected by sync daemon: ", message.as_str()),
                        ),
                    ),
                ),
                Request::InputTap { .. } => Some(
                    wrong(Some(spoken(message, "InputTap sync command returned failure"))),
                ),
                Request::InputSwipe { .. } => Some(
                    wrong(Some(spoken(message, "InputSwipe sync command returned failure"))),
                ),
                Request::InputText { .. } => Some(
                    wrong(Some(spoken(message, "InputText sync command returned failure"))),
                ),
                Request::InputKeyEvent { .. } => Some(
                    wrong(Some(spoken(message, "InputKeyEvent sync command returned failure"))),
                ),
                Request::SetDeviceId { .. } => Some(wrong(Some(message))),
                _ => Some(wrong(None)),
            }
        },
    }
}

fn refused_by_service(x: &Exchange, message: String) -> (v: Verdict<String>)
    requires
        !service_passes_status(x.call@),
    ensures
        v@ == went_wrong(service_refusal(x.call@, message@)),
{
    match &x.call {
        Request::StartPerfetto { .. } => wrong(
            Some(concat2("perfetto start rejected by daemon: ", message.as_str())),
        ),
        Request::InputText { .. } => wrong(
            Some(spoken(message, "InputText RPC returned failure")),
        ),
        Request::SetDeviceId { .. } => wrong(Some(message)),
        _ => wrong(None),
    }
}

fn failed_by_service(x: &Exchange, e: String) -> (v: Verdict<String>)
    requires
        !(x.call@ is Health),
    ensures
        v@ == went_wrong(service_failure(x.call@, x.local_path@, e@)),
{
    match &x.call {
        Request::StartPerfetto { .. } => wrong(
            Some(concat2("failed to start perfetto trace via gRPC: ", e.as_str())),
        ),
        Request::InputText { .. } => wrong(Some(concat2("InputText RPC failed: ", e.as_str()))),
        Request::SetDeviceId { .. } => wrong(
            Some(concat2("SetDeviceId RPC failed: ", e.as_str())),
        ),
        Request::Shell { command } => wrong(
            Some(
                concat4(
                    "profiler_shell failed. command='",
                    command.as_str(),
                    "', error=",
                    e.as_str(),
                ),
            ),
        ),
        Request::PushFile { remote_path } => {
            let mut m = concat4(
                "profiler_push_file failed. local='",
                x.local_path.as_str(),
                "', remote='",
                remote_path.as_str(),
            );
            m.append("', error=");
            m.append(e.as_str());
            wrong(Some(m))
        },
        Request::StartCmlStream { .. } => wrong(Some(concat2("profiler_start_cml: ", e.as_str()))),
        Request::StartGcStream { .. } => wrong(Some(e)),
        _ => wrong(None),
    }
}

/// What a call comes to over the service.
pub fn service_outcome(x: &Exchange, reply: Reply<String>) -> (v: Verdict<String>)
    ensures
        v@ == service_verdict(x.call@, x.local_path@, reply@),
{
    match reply {
        Reply::Answered => well(),
        Reply::Status { success, message } => {
            let passed = success || matches!(
                &x.call,
                Request::StopRecording { .. } | Request::InputTap { .. } | Request::InputSwipe { .. }
                    | Request::InputKeyEvent { .. }
            );
            if passed {
                well()
            } else {
                refused_by_service(x, message)
            }
        },
        Reply::Failed(e) => match &x.call {
            Request::Health => Verdict {
                result: ProfilerResult::DaemonNotRunning,
                last_error: None,
                drop_connection: true,
            },
            _ => failed_by_service(x, e),
        },
    }
}

// ---------------------------------------------------------------------------
// What is left behind
// ---------------------------------------------------------------------------

/// What a call leaves behind: the error that is to be remembered, and the
/// connections without the one that is given up. Nothing else changes.
pub open spec fn left_behind<C, H>(
    before: RuntimeState<C, H>,
    serial: Seq<char>,
    v: Verdict<Seq<char>>,
    after: RuntimeState<C, H>,
) -> bool {
    &&& after.connections@ == if v.drop_connection {
        before.connections@.remove(serial)
    } else {
        before.connections@
    }
    &&& after.last_error@ == match v.last_error {
        Some(m) => m,
        None => before.last_error@,
    }
    &&& after.rtb == before.rtb
    &&& after.cr == before.cr
    &&& after.tc == before.tc
    &&& after.cml == before.cml
    &&& after.gc == before.gc
}

/// Ends a call: remembers its error, gives its connection up where that is
/// due, and hands its result to the caller.
pub fn conclude<C, H>(rt: &mut Runtime<C, H>, x: &Exchange, v: Verdict<String>) -> (result:
    ProfilerResult)
    requires
        old(rt).wf(),
        old(rt).state is Some,
    ensures
        final(rt).wf(),
        final(rt).state is Some,
        left_behind(old(rt).state->Some_0, x.serial@, v@, final(rt).state->Some_0),
        result == v.result,
{
    let mut taken: Option<RuntimeState<C, H>> = None;
    std::mem::swap(&mut taken, &mut rt.state);
    if let Some(mut state) = taken {
        if v.drop_connection {
            let _ = state.connections.remove(x.serial.as_str());
        }
        if let Some(m) = v.last_error {
            state.last_error = m;
        }
        rt.state = Some(state);
    }
    v.result
}

/// A control protocol that gives nothing back decides nothing: the service is
/// asked, whatever the request.
pub proof fn law_failed_control_decides_nothing(call: CallModel, e: Seq<char>)
    ensures
        control_verdict(call, Reply::Failed(e)) is None,
{
}

/// Only a health check that is not answered gives a connection up.
pub proof fn law_only_health_checks_give_up(
    call: CallModel,
    local_path: Seq<char>,
    reply: Reply<Seq<char>>,
)
    ensures
        service_verdict(call, local_path, reply).drop_connection <==> call is Health
            && reply is Failed,
        control_verdict(call, reply) matches Some(v) ==> !v.drop_connection,
{
}

/// Whatever is asked for, an answer is a success.
pub proof fn law_answers_succeed(call: CallModel, local_path: Seq<char>)
    ensures
        control_verdict(call, Reply::Answered) == Some(went_well()),
        service_verdict(call, local_path, Reply::Answered) == went_well(),
{
}

/// After a health check that was not answered the device has no connection:
/// the next call for it finds none.
pub proof fn law_dead_connection_is_forgotten<C, H>(
    before: Runtime<C, H>,
    after: Runtime<C, H>,
    serial: Option<&Vec<u16>>,
    local_path: Seq<char>,
    e: Seq<char>,
    next: CallModel,
    over_control: bool,
    r: Result<Exchange, ProfilerResult>,
)
    requires
        before.state is Some,
        after.state is Some,
        serial is Some,
        left_behind(
            before.state->Some_0,
            text_given(serial),
            service_verdict(Request::Health, local_path, Reply::Failed(e)),
            after.state->Some_0,
        ),
        exchange(after, serial, true, over_control, local_path, next, r),
    ensures
        r is Err,
        r->Err_0 == ProfilerResult::DeviceNotFound,
{
    assert(!is_linked(after, text_given(serial)));
}

// ---------------------------------------------------------------------------
// Connections
// ---------------------------------------------------------------------------

/// What a connection that has ended is to the caller.
pub open spec fn connect_result(end: ConnectEnd<Seq<char>>) -> ProfilerResult {
    match end {
        ConnectEnd::Connected => ProfilerResult::Success,
        ConnectEnd::Failed(e) => match e {
            ConnectError::DeviceNotFound => ProfilerResult::DeviceNotFound,
            ConnectError::NotAlive => ProfilerResult::DaemonNotRunning,
            ConnectError::DaemonUnreachable(_) => ProfilerResult::DaemonNotRunning,
            _ => ProfilerResult::OperationFailed,
        },
    }
}

/// What a connection that has ended is to the caller.
pub fn connect_verdict(end: &ConnectEnd<String>) -> (r: ProfilerResult)
    ensures
        r == connect_result(end@),
{
    match end {
        ConnectEnd::Connected => ProfilerResult::Success,
        ConnectEnd::Failed(e) => match e {
            ConnectError::DeviceNotFound => ProfilerResult::DeviceNotFound,
            ConnectError::NotAlive => ProfilerResult::DaemonNotRunning,
            ConnectError::DaemonUnreachable(_) => ProfilerResult::DaemonNotRunning,
            _ => ProfilerResult::OperationFailed,
        },
    }
}

} // verus!
