//! The commands of the control protocol: which code and which message each
//! one sends, and how files go over it.
use vstd::prelude::*;
use crate::grpc::frame::SyncError;
use crate::grpc::streaming::{StreamKind, stream_started};
use crate::proto::{Call, CallModel, Request, ScreenSizeResponse};

verus! {

pub const SYNC_CMD_HEALTH: u8 = 2;

pub const SYNC_CMD_GET_PID: u8 = 3;

pub const SYNC_CMD_STOP_RECORDING: u8 = 4;

pub const SYNC_CMD_GET_RTB_SUMMARY: u8 = 5;

pub const SYNC_CMD_GET_SURFACE_NAMES: u8 = 6;

pub const SYNC_CMD_SHELL: u8 = 7;

pub const SYNC_CMD_PATH_EXISTS: u8 = 8;

pub const SYNC_CMD_GET_TOP_APP: u8 = 9;

pub const SYNC_CMD_GET_SCREEN_SIZE: u8 = 10;

pub const SYNC_CMD_INPUT_TAP: u8 = 11;

pub const SYNC_CMD_INPUT_SWIPE: u8 = 12;

pub const SYNC_CMD_INPUT_TEXT: u8 = 13;

pub const SYNC_CMD_INPUT_KEY_EVENT: u8 = 14;

pub const SYNC_CMD_LIST_PACKAGES: u8 = 15;

pub const SYNC_CMD_GET_PACKAGE_INFO: u8 = 16;

pub const SYNC_CMD_LAUNCH_APP: u8 = 17;

pub const SYNC_CMD_STOP_APP: u8 = 18;

pub const SYNC_CMD_INSTALL_APK: u8 = 19;

pub const SYNC_CMD_GET_DEVICE_PROP: u8 = 20;

pub const SYNC_CMD_GET_TEMPERATURE: u8 = 21;

pub const SYNC_CMD_SET_CHARGING: u8 = 22;

pub const SYNC_CMD_REMOVE_FILE: u8 = 23;

pub const SYNC_CMD_CREATE_ARCHIVE: u8 = 24;

pub const SYNC_CMD_EXTRACT_ARCHIVE: u8 = 25;

pub const SYNC_CMD_CHMOD: u8 = 26;

pub const SYNC_CMD_CHOWN: u8 = 27;

pub const SYNC_CMD_GET_FILE_OWNER: u8 = 28;

pub const SYNC_CMD_DISCOVER_FTRACE_EVENTS: u8 = 29;

pub const SYNC_CMD_DISCOVER_PMU_EVENTS: u8 = 30;

pub const SYNC_CMD_GET_PMU_HW_COUNTERS: u8 = 31;

pub const SYNC_CMD_DISCOVER_GPU_COUNTERS: u8 = 32;

pub const SYNC_CMD_SCREENSHOT: u8 = 33;

pub const SYNC_CMD_PULL_FILE: u8 = 34;

pub const SYNC_CMD_PUSH_FILE: u8 = 35;

pub const SYNC_CMD_START_PERFETTO: u8 = 36;

pub const SYNC_CMD_GET_PERFETTO_STATUS: u8 = 37;

pub const SYNC_CMD_SET_DEVICE_ID: u8 = 42;

/// How long a plain command may take to be answered, in seconds.
pub const COMMAND_TIMEOUT_SECS: u64 = 5;

/// How long each part of a file may take, in seconds.
pub const FILE_TIMEOUT_SECS: u64 = 30;

/// A command to be sent: where to, its code, what it asks for, and how long
/// to wait for each part of the reply.
#[derive(Debug, Clone)]
pub struct SyncCall {
    pub addr: String,
    pub opcode: u8,
    pub request: Call,
    pub timeout_secs: u64,
}

/// Whether a command is sent to `addr` with the given code, request and
/// timeout, and these are the code and the timeout of the request.
pub open spec fn is_call(
    call: SyncCall,
    addr: Seq<char>,
    opcode: u8,
    request: CallModel,
    timeout_secs: u64,
) -> bool {
    &&& call.addr@ == addr
    &&& call.opcode == opcode
    &&& call.request@ == request
    &&& call.timeout_secs == timeout_secs
    &&& opcode_of(request) == Some(opcode)
    &&& timeout_of(request) == timeout_secs
}

fn send_unary(addr: &str, opcode: u8, request: Call) -> (call: SyncCall)
    requires
        opcode_of(request@) == Some(opcode),
        timeout_of(request@) == COMMAND_TIMEOUT_SECS,
    ensures
        is_call(call, addr@, opcode, request@, COMMAND_TIMEOUT_SECS),
{
    SyncCall { addr: addr.to_string(), opcode, request, timeout_secs: COMMAND_TIMEOUT_SECS }
}

fn file_call(addr: &str, opcode: u8, request: Call) -> (call: SyncCall)
    requires
        opcode_of(request@) == Some(opcode),
        timeout_of(request@) == FILE_TIMEOUT_SECS,
    ensures
        is_call(call, addr@, opcode, request@, FILE_TIMEOUT_SECS),
{
    SyncCall { addr: addr.to_string(), opcode, request, timeout_secs: FILE_TIMEOUT_SECS }
}

/// The code of the command that makes a request. Streams have codes of their
/// own.
pub open spec fn opcode_of(request: CallModel) -> Option<u8> {
    match request {
        Request::Health => Some(SYNC_CMD_HEALTH),
        Request::GetPid { .. } => Some(SYNC_CMD_GET_PID),
        Request::StopRecording { .. } => Some(SYNC_CMD_STOP_RECORDING),
        Request::GetRtbSummary => Some(SYNC_CMD_GET_RTB_SUMMARY),
        Request::GetSurfaceNames { .. } => Some(SYNC_CMD_GET_SURFACE_NAMES),
        Request::Shell { .. } => Some(SYNC_CMD_SHELL),
        Request::PathExists { .. } => Some(SYNC_CMD_PATH_EXISTS),
        Request::GetTopApp => Some(SYNC_CMD_GET_TOP_APP),
        Request::GetScreenSize => Some(SYNC_CMD_GET_SCREEN_SIZE),
        Request::InputTap { .. } => Some(SYNC_CMD_INPUT_TAP),
        Request::InputSwipe { .. } => Some(SYNC_CMD_INPUT_SWIPE),
        Request::InputText { .. } => Some(SYNC_CMD_INPUT_TEXT),
        Request::InputKeyEvent { .. } => Some(SYNC_CMD_INPUT_KEY_EVENT),
        Request::ListPackages { .. } => Some(SYNC_CMD_LIST_PACKAGES),
        Request::GetPackageInfo { .. } => Some(SYNC_CMD_GET_PACKAGE_INFO),
        Request::LaunchApp { .. } => Some(SYNC_CMD_LAUNCH_APP),
        Request::StopApp { .. } => Some(SYNC_CMD_STOP_APP),
        Request::InstallApk { .. } => Some(SYNC_CMD_INSTALL_APK),
        Request::GetDeviceProp { .. } => Some(SYNC_CMD_GET_DEVICE_PROP),
        Request::GetTemperature => Some(SYNC_CMD_GET_TEMPERATURE),
        Request::SetCharging { .. } => Some(SYNC_CMD_SET_CHARGING),
        Request::RemoveFile { .. } => Some(SYNC_CMD_REMOVE_FILE),
        Request::CreateArchive { .. } => Some(SYNC_CMD_CREATE_ARCHIVE),
        Request::ExtractArchive { .. } => Some(SYNC_CMD_EXTRACT_ARCHIVE),
        Request::Chmod { .. } => Some(SYNC_CMD_CHMOD),
        Request::Chown { .. } => Some(SYNC_CMD_CHOWN),
        Request::GetFileOwner { .. } => Some(SYNC_CMD_GET_FILE_OWNER),
        Request::DiscoverFtraceEvents => Some(SYNC_CMD_DISCOVER_FTRACE_EVENTS),
        Request::DiscoverPmuEvents => Some(SYNC_CMD_DISCOVER_PMU_EVENTS),
        Request::GetPmuHwCounters => Some(SYNC_CMD_GET_PMU_HW_COUNTERS),
        Request::DiscoverGpuCounters => Some(SYNC_CMD_DISCOVER_GPU_COUNTERS),
        Request::Screenshot { .. } => Some(SYNC_CMD_SCREENSHOT),
        Request::PullFile { .. } => Some(SYNC_CMD_PULL_FILE),
        Request::PushFile { .. } => Some(SYNC_CMD_PUSH_FILE),
        Request::StartPerfetto { .. } => Some(SYNC_CMD_START_PERFETTO),
        Request::GetPerfettoStatus => Some(SYNC_CMD_GET_PERFETTO_STATUS),
        Request::SetDeviceId { .. } => Some(SYNC_CMD_SET_DEVICE_ID),
        _ => None,
    }
}

/// The code of the command that makes a request.
fn opcode(request: &Call) -> (code: Option<u8>)
    ensures
        code == opcode_of(request@),
{
    match request {
        Request::Health => Some(SYNC_CMD_HEALTH),
        Request::GetPid { .. } => Some(SYNC_CMD_GET_PID),
        Request::StopRecording { .. } => Some(SYNC_CMD_STOP_RECORDING),
        Request::GetRtbSummary => Some(SYNC_CMD_GET_RTB_SUMMARY),
        Request::GetSurfaceNames { .. } => Some(SYNC_CMD_GET_SURFACE_NAMES),
        Request::Shell { .. } => Some(SYNC_CMD_SHELL),
        Request::PathExists { .. } => Some(SYNC_CMD_PATH_EXISTS),
        Request::GetTopApp => Some(SYNC_CMD_GET_TOP_APP),
        Request::GetScreenSize => Some(SYNC_CMD_GET_SCREEN_SIZE),
        Request::InputTap { .. } => Some(SYNC_CMD_INPUT_TAP),
        Request::InputSwipe { .. } => Some(SYNC_CMD_INPUT_SWIPE),
        Request::InputText { .. } => Some(SYNC_CMD_INPUT_TEXT),
        Request::InputKeyEvent { .. } => Some(SYNC_CMD_INPUT_KEY_EVENT),
        Request::ListPackages { .. } => Some(SYNC_CMD_LIST_PACKAGES),
        Request::GetPackageInfo { .. } => Some(SYNC_CMD_GET_PACKAGE_INFO),
        Request::LaunchApp { .. } => Some(SYNC_CMD_LAUNCH_APP),
        Request::StopApp { .. } => Some(SYNC_CMD_STOP_APP),
        Request::InstallApk { .. } => Some(SYNC_CMD_INSTALL_APK),
        Request::GetDeviceProp { .. } => Some(SYNC_CMD_GET_DEVICE_PROP),
        Request::GetTemperature => Some(SYNC_CMD_GET_TEMPERATURE),
        Request::SetCharging { .. } => Some(SYNC_CMD_SET_CHARGING),
        Request::RemoveFile { .. } => Some(SYNC_CMD_REMOVE_FILE),
        Request::CreateArchive { .. } => Some(SYNC_CMD_CREATE_ARCHIVE),
        Request::ExtractArchive { .. } => Some(SYNC_CMD_EXTRACT_ARCHIVE),
        Request::Chmod { .. } => Some(SYNC_CMD_CHMOD),
        Request::Chown { .. } => Some(SYNC_CMD_CHOWN),
        Request::GetFileOwner { .. } => Some(SYNC_CMD_GET_FILE_OWNER),
        Request::DiscoverFtraceEvents => Some(SYNC_CMD_DISCOVER_FTRACE_EVENTS),
        Request::DiscoverPmuEvents => Some(SYNC_CMD_DISCOVER_PMU_EVENTS),
        Request::GetPmuHwCounters => Some(SYNC_CMD_GET_PMU_HW_COUNTERS),
        Request::DiscoverGpuCounters => Some(SYNC_CMD_DISCOVER_GPU_COUNTERS),
        Request::Screenshot { .. } => Some(SYNC_CMD_SCREENSHOT),
        Request::PullFile { .. } => Some(SYNC_CMD_PULL_FILE),
        Request::PushFile { .. } => Some(SYNC_CMD_PUSH_FILE),
        Request::StartPerfetto { .. } => Some(SYNC_CMD_START_PERFETTO),
        Request::GetPerfettoStatus => Some(SYNC_CMD_GET_PERFETTO_STATUS),
        Request::SetDeviceId { .. } => Some(SYNC_CMD_SET_DEVICE_ID),
        _ => None,
    }
}

/// How long the answer to a request may take: longer where a file is sent.
pub open spec fn timeout_of(request: CallModel) -> u64 {
    match request {
        Request::Screenshot { .. } => FILE_TIMEOUT_SECS,
        Request::PullFile { .. } => FILE_TIMEOUT_SECS,
        Request::PushFile { .. } => FILE_TIMEOUT_SECS,
        _ => COMMAND_TIMEOUT_SECS,
    }
}

/// The command that makes a request; there is none for what starts a stream.
pub fn sync_call(addr: &str, request: Call) -> (call: Option<SyncCall>)
    ensures
        match opcode_of(request@) {
            Some(code) => call is Some && is_call(
                call->Some_0,
                addr@,
                code,
                request@,
                timeout_of(request@),
            ),
            None => call is None,
        },
{
    let code: u8 = match opcode(&request) {
        Some(code) => code,
        None => return None,
    };
    let sends_file = match &request {
        Request::Screenshot { .. } => true,
        Request::PullFile { .. } => true,
        Request::PushFile { .. } => true,
        _ => false,
    };
    if sends_file {
        Some(file_call(addr, code, request))
    } else {
        Some(send_unary(addr, code, request))
    }
}

/// Asks for the daemon's version and status.
pub fn health(addr: &str) -> (call: SyncCall)
    ensures
        is_call(call, addr@, SYNC_CMD_HEALTH, Request::Health, COMMAND_TIMEOUT_SECS),
{
    send_unary(addr, SYNC_CMD_HEALTH, Request::Health)
}

/// Asks for the process of a package.
pub fn get_pid(addr: &str, package_name: &str) -> (call: SyncCall)
    ensures
        is_call(
            call,
            addr@,
            SYNC_CMD_GET_PID,
            (Request::GetPid { package_name: package_name@ }),
            COMMAND_TIMEOUT_SECS,
        ),
{
    send_unary(addr, SYNC_CMD_GET_PID, Request::GetPid { package_name: package_name.to_string() })
}

/// Stops a recording session.
pub fn stop_recording(addr: &str, session_type: &str) -> (call: SyncCall)
    ensures
        is_call(
            call,
            addr@,
            SYNC_CMD_STOP_RECORDING,
            (Request::StopRecording { session_type: session_type@ }),
            COMMAND_TIMEOUT_SECS,
        ),
{
    send_unary(
        addr,
        SYNC_CMD_STOP_RECORDING,
        Request::StopRecording { session_type: session_type.to_string() },
    )
}

/// Asks for the summary of the last real-time benchmark.
pub fn get_rtb_summary(addr: &str) -> (call: SyncCall)
    ensures
        is_call(
            call,
            addr@,
            SYNC_CMD_GET_RTB_SUMMARY,
            Request::GetRtbSummary,
            COMMAND_TIMEOUT_SECS,
        ),
{
    send_unary(addr, SYNC_CMD_GET_RTB_SUMMARY, Request::GetRtbSummary)
}

/// Asks for the surfaces of a package.
pub fn get_surface_names(addr: &str, package_name: &str) -> (call: SyncCall)
    ensures
        is_call(
            call,
            addr@,
            SYNC_CMD_GET_SURFACE_NAMES,
            (Request::GetSurfaceNames { package_name: package_name@ }),
            COMMAND_TIMEOUT_SECS,
        ),
{
    send_unary(
        addr,
        SYNC_CMD_GET_SURFACE_NAMES,
        Request::GetSurfaceNames { package_name: package_name.to_string() },
    )
}

/// Runs a shell command.
pub fn shell(addr: &str, command: &str) -> (call: SyncCall)
    ensures
        is_call(
            call,
            addr@,
            SYNC_CMD_SHELL,
            (Request::Shell { command: command@ }),
            COMMAND_TIMEOUT_SECS,
        ),
{
    send_unary(addr, SYNC_CMD_SHELL, Request::Shell { command: command.to_string() })
}

/// Asks whether a path exists.
pub fn path_exists(addr: &str, path: &str) -> (call: SyncCall)
    ensures
        is_call(
            call,
            addr@,
            SYNC_CMD_PATH_EXISTS,
            (Request::PathExists { path: path@ }),
            COMMAND_TIMEOUT_SECS,
        ),
{
    send_unary(addr, SYNC_CMD_PATH_EXISTS, Request::PathExists { path: path.to_string() })
}

/// Asks for the app in the foreground.
pub fn get_top_app(addr: &str) -> (call: SyncCall)
    ensures
        is_call(call, addr@, SYNC_CMD_GET_TOP_APP, Request::GetTopApp, COMMAND_TIMEOUT_SECS),
{
    send_unary(addr, SYNC_CMD_GET_TOP_APP, Request::GetTopApp)
}

/// Asks for the size of the screen.
pub fn get_screen_size(addr: &str) -> (call: SyncCall)
    ensures
        is_call(
            call,
            addr@,
            SYNC_CMD_GET_SCREEN_SIZE,
            Request::GetScreenSize,
            COMMAND_TIMEOUT_SECS,
        ),
{
    send_unary(addr, SYNC_CMD_GET_SCREEN_SIZE, Request::GetScreenSize)
}

/// The size of the screen that the daemon answers, the width first.
pub fn screen_size(response: &ScreenSizeResponse) -> (size: (i32, i32))
    ensures
        size == (response.width, response.height),
{
    (response.width, response.height)
}

/// Taps a point of the screen.
pub fn input_tap(addr: &str, x: i32, y: i32) -> (call: SyncCall)
    ensures
        is_call(
            call,
            addr@,
            SYNC_CMD_INPUT_TAP,
            (Request::InputTap { x, y }),
            COMMAND_TIMEOUT_SECS,
        ),
{
    send_unary(addr, SYNC_CMD_INPUT_TAP, Request::InputTap { x, y })
}

/// Swipes from one point of the screen to another.
pub fn input_swipe(
    addr: &str,
    x1: i32,
    y1: i32,
    x2: i32,
    y2: i32,
    duration_ms: i32,
) -> (call: SyncCall)
    ensures
        is_call(
            call,
            addr@,
            SYNC_CMD_INPUT_SWIPE,
            (Request::InputSwipe { x1, y1, x2, y2, duration_ms }),
            COMMAND_TIMEOUT_SECS,
        ),
{
    send_unary(addr, SYNC_CMD_INPUT_SWIPE, Request::InputSwipe { x1, y1, x2, y2, duration_ms })
}

/// Types a text.
pub fn input_text(addr: &str, text: &str) -> (call: SyncCall)
    ensures
        is_call(
            call,
            addr@,
            SYNC_CMD_INPUT_TEXT,
            (Request::InputText { text: text@ }),
            COMMAND_TIMEOUT_SECS,
        ),
{
    send_unary(addr, SYNC_CMD_INPUT_TEXT, Request::InputText { text: text.to_string() })
}

/// Presses a key.
pub fn input_key_event(addr: &str, key_code: i32) -> (call: SyncCall)
    ensures
        is_call(
            call,
            addr@,
            SYNC_CMD_INPUT_KEY_EVENT,
            (Request::InputKeyEvent { key_code }),
            COMMAND_TIMEOUT_SECS,
        ),
{
    send_unary(addr, SYNC_CMD_INPUT_KEY_EVENT, Request::InputKeyEvent { key_code })
}

/// Asks for the installed packages.
pub fn list_packages(addr: &str, third_party_only: bool) -> (call: SyncCall)
    ensures
        is_call(
            call,
            addr@,
            SYNC_CMD_LIST_PACKAGES,
            (Request::ListPackages { third_party_only }),
            COMMAND_TIMEOUT_SECS,
        ),
{
    send_unary(addr, SYNC_CMD_LIST_PACKAGES, Request::ListPackages { third_party_only })
}

/// Asks for the details of a package.
pub fn get_package_info(addr: &str, package_name: &str) -> (call: SyncCall)
    ensures
        is_call(
            call,
            addr@,
            SYNC_CMD_GET_PACKAGE_INFO,
            (Request::GetPackageInfo { package_name: package_name@ }),
            COMMAND_TIMEOUT_SECS,
        ),
{
    send_unary(
        addr,
        SYNC_CMD_GET_PACKAGE_INFO,
        Request::GetPackageInfo { package_name: package_name.to_string() },
    )
}

/// Starts an app.
pub fn launch_app(addr: &str, package_name: &str) -> (call: SyncCall)
    ensures
        is_call(
            call,
            addr@,
            SYNC_CMD_LAUNCH_APP,
            (Request::LaunchApp { package_name: package_name@ }),
            COMMAND_TIMEOUT_SECS,
        ),
{
    send_unary(
        addr,
        SYNC_CMD_LAUNCH_APP,
        Request::LaunchApp { package_name: package_name.to_string() },
    )
}

/// Stops an app.
pub fn stop_app(addr: &str, package_name: &str) -> (call: SyncCall)
    ensures
        is_call(
            call,
            addr@,
            SYNC_CMD_STOP_APP,
            (Request::StopApp { package_name: package_name@ }),
            COMMAND_TIMEOUT_SECS,
        ),
{
    send_unary(addr, SYNC_CMD_STOP_APP, Request::StopApp { package_name: package_name.to_string() })
}

/// Installs a package file that is on the device.
pub fn install_apk(addr: &str, remote_apk_path: &str) -> (call: SyncCall)
    ensures
        is_call(
            call,
            addr@,
            SYNC_CMD_INSTALL_APK,
            (Request::InstallApk { remote_apk_path: remote_apk_path@ }),
            COMMAND_TIMEOUT_SECS,
        ),
{
    send_unary(
        addr,
        SYNC_CMD_INSTALL_APK,
        Request::InstallApk { remote_apk_path: remote_apk_path.to_string() },
    )
}

/// Asks for a device property.
pub fn get_device_prop(addr: &str, prop_name: &str) -> (call: SyncCall)
    ensures
        is_call(
            call,
            addr@,
            SYNC_CMD_GET_DEVICE_PROP,
            (Request::GetDeviceProp { prop_name: prop_name@ }),
            COMMAND_TIMEOUT_SECS,
        ),
{
    send_unary(
        addr,
        SYNC_CMD_GET_DEVICE_PROP,
        Request::GetDeviceProp { prop_name: prop_name.to_string() },
    )
}

/// Asks for temperatures and the battery level.
pub fn get_temperature(addr: &str) -> (call: SyncCall)
    ensures
        is_call(
            call,
            addr@,
            SYNC_CMD_GET_TEMPERATURE,
            Request::GetTemperature,
            COMMAND_TIMEOUT_SECS,
        ),
{
    send_unary(addr, SYNC_CMD_GET_TEMPERATURE, Request::GetTemperature)
}

/// Switches charging on or off.
pub fn set_charging(addr: &str, enable: bool) -> (call: SyncCall)
    ensures
        is_call(
            call,
            addr@,
            SYNC_CMD_SET_CHARGING,
            (Request::SetCharging { enable }),
            COMMAND_TIMEOUT_SECS,
        ),
{
    send_unary(addr, SYNC_CMD_SET_CHARGING, Request::SetCharging { enable })
}

/// Removes a file.
pub fn remove_file(addr: &str, path: &str) -> (call: SyncCall)
    ensures
        is_call(
            call,
            addr@,
            SYNC_CMD_REMOVE_FILE,
            (Request::RemoveFile { path: path@ }),
            COMMAND_TIMEOUT_SECS,
        ),
{
    send_unary(addr, SYNC_CMD_REMOVE_FILE, Request::RemoveFile { path: path.to_string() })
}

/// Packs a target into an archive.
pub fn create_archive(
    addr: &str,
    working_directory: &str,
    target: &str,
    output_path: &str,
) -> (call: SyncCall)
    ensures
        is_call(
            call,
            addr@,
            SYNC_CMD_CREATE_ARCHIVE,
            (
                Request::CreateArchive {
                    working_directory: working_directory@,
                    target: target@,
                    output_path: output_path@,
                }
            ),
            COMMAND_TIMEOUT_SECS,
        ),
{
    send_unary(
        addr,
        SYNC_CMD_CREATE_ARCHIVE,
        Request::CreateArchive {
            working_directory: working_directory.to_string(),
            target: target.to_string(),
            output_path: output_path.to_string(),
        },
    )
}

/// Unpacks an archive.
pub fn extract_archive(addr: &str, working_directory: &str, archive_path: &str) -> (call: SyncCall)
    ensures
        is_call(
            call,
            addr@,
            SYNC_CMD_EXTRACT_ARCHIVE,
            (
                Request::ExtractArchive {
                    working_directory: working_directory@,
                    archive_path: archive_path@,
                }
            ),
            COMMAND_TIMEOUT_SECS,
        ),
{
    send_unary(
        addr,
        SYNC_CMD_EXTRACT_ARCHIVE,
        Request::ExtractArchive {
            working_directory: working_directory.to_string(),
            archive_path: archive_path.to_string(),
        },
    )
}

/// Changes the mode of a path.
pub fn chmod(addr: &str, path: &str, mode: &str, recursive: bool) -> (call: SyncCall)
    ensures
        is_call(
            call,
            addr@,
            SYNC_CMD_CHMOD,
            (Request::Chmod { path: path@, mode: mode@, recursive }),
            COMMAND_TIMEOUT_SECS,
        ),
{
    send_unary(
        addr,
        SYNC_CMD_CHMOD,
        Request::Chmod { path: path.to_string(), mode: mode.to_string(), recursive },
    )
}

/// Changes the owner of a path.
pub fn chown(addr: &str, path: &str, uid: i32, gid: i32, recursive: bool) -> (call: SyncCall)
    ensures
        is_call(
            call,
            addr@,
            SYNC_CMD_CHOWN,
            (Request::Chown { path: path@, uid, gid, recursive }),
            COMMAND_TIMEOUT_SECS,
        ),
{
    send_unary(addr, SYNC_CMD_CHOWN, Request::Chown { path: path.to_string(), uid, gid, recursive })
}

/// Asks for the owner of a path.
pub fn get_file_owner(addr: &str, path: &str) -> (call: SyncCall)
    ensures
        is_call(
            call,
            addr@,
            SYNC_CMD_GET_FILE_OWNER,
            (Request::GetFileOwner { path: path@ }),
            COMMAND_TIMEOUT_SECS,
        ),
{
    send_unary(addr, SYNC_CMD_GET_FILE_OWNER, Request::GetFileOwner { path: path.to_string() })
}

/// Asks for the kernel's trace events.
pub fn discover_ftrace_events(addr: &str) -> (call: SyncCall)
    ensures
        is_call(
            call,
            addr@,
            SYNC_CMD_DISCOVER_FTRACE_EVENTS,
            Request::DiscoverFtraceEvents,
            COMMAND_TIMEOUT_SECS,
        ),
{
    send_unary(addr, SYNC_CMD_DISCOVER_FTRACE_EVENTS, Request::DiscoverFtraceEvents)
}

/// Asks for the events that can be counted.
pub fn discover_pmu_events(addr: &str) -> (call: SyncCall)
    ensures
        is_call(
            call,
            addr@,
            SYNC_CMD_DISCOVER_PMU_EVENTS,
            Request::DiscoverPmuEvents,
            COMMAND_TIMEOUT_SECS,
        ),
{
    send_unary(addr, SYNC_CMD_DISCOVER_PMU_EVENTS, Request::DiscoverPmuEvents)
}

/// Asks how many hardware counters there are.
pub fn get_pmu_hw_counters(addr: &str) -> (call: SyncCall)
    ensures
        is_call(
            call,
            addr@,
            SYNC_CMD_GET_PMU_HW_COUNTERS,
            Request::GetPmuHwCounters,
            COMMAND_TIMEOUT_SECS,
        ),
{
    send_unary(addr, SYNC_CMD_GET_PMU_HW_COUNTERS, Request::GetPmuHwCounters)
}

/// Asks for the GPU's counters.
pub fn discover_gpu_counters(addr: &str) -> (call: SyncCall)
    ensures
        is_call(
            call,
            addr@,
            SYNC_CMD_DISCOVER_GPU_COUNTERS,
            Request::DiscoverGpuCounters,
            COMMAND_TIMEOUT_SECS,
        ),
{
    send_unary(addr, SYNC_CMD_DISCOVER_GPU_COUNTERS, Request::DiscoverGpuCounters)
}

/// Asks for a picture of the screen, which is sent as a file.
pub fn screenshot(addr: &str, quality: i32) -> (call: SyncCall)
    ensures
        is_call(
            call,
            addr@,
            SYNC_CMD_SCREENSHOT,
            (Request::Screenshot { quality }),
            FILE_TIMEOUT_SECS,
        ),
{
    file_call(addr, SYNC_CMD_SCREENSHOT, Request::Screenshot { quality })
}

/// Asks for a file.
pub fn pull_file(addr: &str, remote_path: &str) -> (call: SyncCall)
    ensures
        is_call(
            call,
            addr@,
            SYNC_CMD_PULL_FILE,
            (Request::PullFile { remote_path: remote_path@ }),
            FILE_TIMEOUT_SECS,
        ),
{
    file_call(addr, SYNC_CMD_PULL_FILE, Request::PullFile { remote_path: remote_path.to_string() })
}

/// Announces a file.
pub fn push_file(addr: &str, remote_path: &str) -> (call: SyncCall)
    ensures
        is_call(
            call,
            addr@,
            SYNC_CMD_PUSH_FILE,
            (Request::PushFile { remote_path: remote_path@ }),
            FILE_TIMEOUT_SECS,
        ),
{
    file_call(addr, SYNC_CMD_PUSH_FILE, Request::PushFile { remote_path: remote_path.to_string() })
}

/// Starts a trace session.
pub fn start_perfetto(
    addr: &str,
    pid: i32,
    mode: &str,
    duration_secs: i32,
    config_pbtxt: &str,
) -> (call: SyncCall)
    ensures
        is_call(
            call,
            addr@,
            SYNC_CMD_START_PERFETTO,
            (
                Request::StartPerfetto {
                    pid,
                    mode: mode@,
                    duration_secs,
                    config_pbtxt: config_pbtxt@,
                }
            ),
            COMMAND_TIMEOUT_SECS,
        ),
{
    send_unary(
        addr,
        SYNC_CMD_START_PERFETTO,
        Request::StartPerfetto {
            pid,
            mode: mode.to_string(),
            duration_secs,
            config_pbtxt: config_pbtxt.to_string(),
        },
    )
}

/// Asks for the state of the trace session.
pub fn get_perfetto_status(addr: &str) -> (call: SyncCall)
    ensures
        is_call(
            call,
            addr@,
            SYNC_CMD_GET_PERFETTO_STATUS,
            Request::GetPerfettoStatus,
            COMMAND_TIMEOUT_SECS,
        ),
{
    send_unary(addr, SYNC_CMD_GET_PERFETTO_STATUS, Request::GetPerfettoStatus)
}

/// Sets the identifier that the device keeps.
pub fn set_device_id(addr: &str, device_id: &str) -> (call: SyncCall)
    ensures
        is_call(
            call,
            addr@,
            SYNC_CMD_SET_DEVICE_ID,
            (Request::SetDeviceId { device_id: device_id@ }),
            COMMAND_TIMEOUT_SECS,
        ),
{
    send_unary(
        addr,
        SYNC_CMD_SET_DEVICE_ID,
        Request::SetDeviceId { device_id: device_id.to_string() },
    )
}

/// Every request has a command of the control protocol, unless it starts a
/// stream.
pub proof fn law_every_request_but_a_stream_has_a_command(request: CallModel)
    ensures
        opcode_of(request) is Some <==> stream_started(request) is None,
{
}

/// What starts a stream is told apart from every other command.
pub proof fn law_streams_have_codes_of_their_own(kind: StreamKind, request: CallModel)
    ensures
        opcode_of(request) != Some(kind.start_code()),
{
}

/// Commands that ask for different things have different codes: two requests
/// with one code are of one kind.
pub proof fn law_opcodes_tell_requests_apart(a: CallModel, b: CallModel)
    requires
        opcode_of(a) is Some,
        opcode_of(a) == opcode_of(b),
    ensures
        a is Health ==> b is Health,
        a is GetPid ==> b is GetPid,
        a is StopRecording ==> b is StopRecording,
        a is GetRtbSummary ==> b is GetRtbSummary,
        a is GetSurfaceNames ==> b is GetSurfaceNames,
        a is Shell ==> b is Shell,
        a is PathExists ==> b is PathExists,
        a is GetTopApp ==> b is GetTopApp,
        a is GetScreenSize ==> b is GetScreenSize,
        a is InputTap ==> b is InputTap,
        a is InputSwipe ==> b is InputSwipe,
        a is InputText ==> b is InputText,
        a is InputKeyEvent ==> b is InputKeyEvent,
        a is ListPackages ==> b is ListPackages,
        a is GetPackageInfo ==> b is GetPackageInfo,
        a is LaunchApp ==> b is LaunchApp,
        a is StopApp ==> b is StopApp,
        a is InstallApk ==> b is InstallApk,
        a is GetDeviceProp ==> b is GetDeviceProp,
        a is GetTemperature ==> b is GetTemperature,
        a is SetCharging ==> b is SetCharging,
        a is RemoveFile ==> b is RemoveFile,
        a is CreateArchive ==> b is CreateArchive,
        a is ExtractArchive ==> b is ExtractArchive,
        a is Chmod ==> b is Chmod,
        a is Chown ==> b is Chown,
        a is GetFileOwner ==> b is GetFileOwner,
        a is DiscoverFtraceEvents ==> b is DiscoverFtraceEvents,
        a is DiscoverPmuEvents ==> b is DiscoverPmuEvents,
        a is GetPmuHwCounters ==> b is GetPmuHwCounters,
        a is DiscoverGpuCounters ==> b is DiscoverGpuCounters,
        a is Screenshot ==> b is Screenshot,
        a is PullFile ==> b is PullFile,
        a is PushFile ==> b is PushFile,
        a is StartPerfetto ==> b is StartPerfetto,
        a is GetPerfettoStatus ==> b is GetPerfettoStatus,
        a is SetDeviceId ==> b is SetDeviceId,
{
}

// ---------------------------------------------------------------------------
// Files
// ---------------------------------------------------------------------------

/// How far the taking over of a file has got.
#[derive(Debug, Clone, Copy, PartialEq, Eq, Structural)]
pub struct ReceiveProgress {
    pub received: u64,
}

/// What to do with one part of a file.
#[derive(Debug, Clone, Copy, PartialEq, Eq)]
pub struct ReceiveStep {
    /// Write the part to the file, and report this much of an unknown total.
    pub report: Option<(u64, u64)>,
    /// The file is complete: close it, and report this much of this total.
    pub finished: Option<(u64, u64)>,
}

impl ReceiveProgress {
    /// Nothing has come yet.
    pub fn new() -> (p: ReceiveProgress)
        ensures
            p.received == 0,
    {
        ReceiveProgress { received: 0 }
    }

    /// Takes a part of `len` bytes; `is_last` marks the last one. An empty
    /// part is not written and not reported.
    pub fn take(&mut self, len: u64, is_last: bool) -> (step: ReceiveStep)
        requires
            old(self).received + len <= u64::MAX,
        ensures
            final(self).received == old(self).received + len,
            step.report == (if len > 0 {
                Some((final(self).received, 0u64))
            } else {
                None
            }),
            step.finished == (if is_last {
                Some((final(self).received, final(self).received))
            } else {
                None
            }),
    {
        let mut report: Option<(u64, u64)> = None;
        if len > 0 {
            self.received = self.received + len;
            report = Some((self.received, 0));
        }
        let finished: Option<(u64, u64)> = if is_last {
            Some((self.received, self.received))
        } else {
            None
        };
        ReceiveStep { report, finished }
    }
}

/// One part of a file on its way to the device.
#[derive(Debug, Clone)]
pub struct FileUploadChunk {
    pub remote_path: String,
    pub data: Vec<u8>,
    pub is_last: bool,
}

/// How much of a file is sent at once, at most.
pub const UPLOAD_PART: usize = 65536;

/// How far the handing over of a file has got.
#[derive(Debug, Clone, Copy, PartialEq, Eq, Structural)]
pub struct PushProgress {
    pub sent: u64,
    pub total: u64,
    /// All that there is was sent.
    pub ended: bool,
}

/// The next part to send.
#[derive(Debug, Clone)]
pub struct PushStep {
    pub chunk: FileUploadChunk,
    /// What to report once it is sent; nothing for the part that stands for an
    /// empty file.
    pub report: Option<(u64, u64)>,
}

impl PushProgress {
    /// How much may be read for the next part: nothing of an empty file, for
    /// which an empty part is sent. There is no next part once all was sent.
    pub open spec fn wants(self) -> Option<usize> {
        if self.ended {
            None
        } else if self.total == 0 {
            Some(0)
        } else {
            Some(UPLOAD_PART)
        }
    }

    /// Nothing of a file of `total` bytes has been sent.
    pub fn new(total: u64) -> (p: PushProgress)
        ensures
            p == (PushProgress { sent: 0, total, ended: false }),
    {
        PushProgress { sent: 0, total, ended: false }
    }

    /// How much may be read for the next part, where there is one.
    pub fn wanted(&self) -> (r: Option<usize>)
        ensures
            r == self.wants(),
    {
        if self.ended {
            None
        } else if self.total == 0 {
            Some(0)
        } else {
            Some(UPLOAD_PART)
        }
    }

    /// The part that holds what was read next; nothing where nothing was left
    /// to read of a file that was not empty. It is the last one where it
    /// completes the file.
    pub fn next(&mut self, remote_path: &str, data: Vec<u8>) -> (r: Option<PushStep>)
        requires
            old(self).wants() is Some,
            data@.len() <= old(self).wants()->Some_0,
            old(self).sent + data@.len() <= u64::MAX,
        ensures
            final(self).total == old(self).total,
            final(self).sent == old(self).sent + data@.len(),
            final(self).ended == (data@.len() == 0 || final(self).sent >= final(self).total),
            r is Some <==> data@.len() > 0 || final(self).total == 0,
            r matches Some(step) ==> {
                &&& step.chunk.remote_path@ == remote_path@
                &&& step.chunk.data@ == data@
                &&& step.chunk.data@.len() <= UPLOAD_PART
                &&& step.chunk.is_last == (final(self).sent >= final(self).total)
                &&& step.report == if final(self).total == 0 {
                    None
                } else {
                    Some((final(self).sent, final(self).total))
                }
            },
    {
        self.sent = self.sent + data.len() as u64;
        self.ended = data.len() == 0 || self.sent >= self.total;
        if data.len() == 0 && self.total != 0 {
            return None;
        }
        let report: Option<(u64, u64)> = if self.total == 0 {
            None
        } else {
            Some((self.sent, self.total))
        };
        Some(
            PushStep {
                chunk: FileUploadChunk {
                    remote_path: remote_path.to_string(),
                    data,
                    is_last: self.sent >= self.total,
                },
                report,
            },
        )
    }
}

/// What the daemon's answer to a file comes to: how many bytes it has, or
/// that it failed.
pub fn push_outcome(success: bool, bytes_written: u64) -> (r: Result<u64, SyncError<String>>)
    ensures
        success ==> r == Ok::<u64, SyncError<String>>(bytes_written),
        !success ==> r == Err::<u64, SyncError<String>>(SyncError::PushFailed(bytes_written)),
{
    if success {
        Ok(bytes_written)
    } else {
        Err(SyncError::PushFailed(bytes_written))
    }
}

/// The last report of a file that was handed over: what the daemon stored is
/// both what was done and the whole. There is none where the daemon failed.
pub fn push_report(success: bool, bytes_written: u64) -> (report: Option<(u64, u64)>)
    ensures
        success ==> report == Some((bytes_written, bytes_written)),
        !success ==> report is None,
{
    if success {
        Some((bytes_written, bytes_written))
    } else {
        None
    }
}

/// How many bytes the first `n` parts of a file hold.
pub open spec fn sent_after(parts: Seq<Seq<u8>>, n: int) -> int
    decreases n,
{
    if n <= 0 {
        0
    } else {
        sent_after(parts, n - 1) + parts[n - 1].len()
    }
}

/// How far the handing over has got after the first `n` parts, none of them
/// empty, of a file that is not empty.
pub open spec fn push_after(parts: Seq<Seq<u8>>, total: u64, n: int) -> PushProgress {
    let sent = sent_after(parts, n) as u64;
    PushProgress { sent, total, ended: sent >= total }
}

/// Where the parts of a file hold all of it and none of them is empty, the
/// part that `PushProgress::next` marks as the last one is the last one, and
/// no other is marked. As long as parts are left, another is asked for, and
/// none after the last.
pub proof fn law_only_the_last_part_is_marked(parts: Seq<Seq<u8>>, total: u64, i: int)
    requires
        0 <= i < parts.len(),
        sent_after(parts, parts.len() as int) == total,
        forall|k: int| 0 <= k < parts.len() ==> (#[trigger] parts[k]).len() > 0,
    ensures
        (sent_after(parts, i + 1) >= total) == (i == parts.len() - 1),
        push_after(parts, total, i).wants() == Some(UPLOAD_PART),
        (push_after(parts, total, i + 1).wants() is None) == (i == parts.len() - 1),
{
    lemma_sent_grows(parts, i, parts.len() as int);
    lemma_sent_counts(parts, i);
    if i < parts.len() - 1 {
        lemma_sent_grows(parts, i + 1, parts.len() as int);
    }
}

proof fn lemma_sent_counts(parts: Seq<Seq<u8>>, n: int)
    ensures
        sent_after(parts, n) >= 0,
    decreases n,
{
    if n > 0 {
        lemma_sent_counts(parts, n - 1);
    }
}

proof fn lemma_sent_grows(parts: Seq<Seq<u8>>, n: int, m: int)
    requires
        0 <= n < m <= parts.len(),
        forall|k: int| 0 <= k < parts.len() ==> (#[trigger] parts[k]).len() > 0,
    ensures
        sent_after(parts, n) < sent_after(parts, m),
    decreases m,
{
    assert(parts[m - 1].len() > 0);
    if n < m - 1 {
        lemma_sent_grows(parts, n, m - 1);
    }
}

} // verus!
