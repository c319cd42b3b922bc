//! Calls over the connection of a device: each checks what it was given, finds
//! the connection, and says what is to be sent over it.
use vstd::prelude::*;
use crate::connect::{control_addr_of, sync_control_addr};
use crate::core_api::is_linked;
use crate::double::Double;
use crate::ffi::options::{chosen_options, numbers, numbers_of, rtb_options};
use crate::ffi::types::{ProfilerResult, ProfilerRtbOptions};
use crate::proto::{Call, CallModel, Request};
use crate::runtime::Runtime;
use crate::text::same_text;
use crate::wide::{from_wide, narrow, units_of_option};

verus! {

/// A request to be sent to a device: over the control protocol first, where
/// there is an address for it, and over the service where that fails. Where a
/// file of this side takes part, `local_path` names it.
#[derive(Debug)]
pub struct Exchange {
    pub serial: String,
    pub sync_addr: Option<String>,
    pub local_path: String,
    pub call: Call,
}

/// The text that a caller gave; empty where it gave none.
pub open spec fn text_given(w: Option<&Vec<u16>>) -> Seq<char> {
    narrow(units_of_option(w))
}

/// Whether a call may be made: one that gets past its parameters needs the
/// runtime.
pub open spec fn callable<C, H>(
    rt: Runtime<C, H>,
    serial: Option<&Vec<u16>>,
    complete: bool,
) -> bool {
    serial is Some && complete ==> rt.state is Some
}

/// The text of an address that may not be there.
pub open spec fn address(a: Option<String>) -> Option<Seq<char>> {
    match a {
        Some(s) => Some(s@),
        None => None,
    }
}

/// What a call comes to: that a parameter is missing, that the device has no
/// connection, or the request.
pub open spec fn exchange<C, H>(
    rt: Runtime<C, H>,
    serial: Option<&Vec<u16>>,
    complete: bool,
    over_control: bool,
    local_path: Seq<char>,
    call: CallModel,
    r: Result<Exchange, ProfilerResult>,
) -> bool {
    let name = text_given(serial);
    if serial is None || !complete {
        r is Err && r->Err_0 == ProfilerResult::InvalidParameter
    } else if !is_linked(rt, name) {
        r is Err && r->Err_0 == ProfilerResult::DeviceNotFound
    } else {
        let entry = rt.state->Some_0.connections@[name];
        &&& r is Ok
        &&& r->Ok_0.serial@ == name
        &&& address(r->Ok_0.sync_addr) == if over_control {
            control_addr_of(entry.daemon_low_overhead, entry.port)
        } else {
            None
        }
        &&& r->Ok_0.local_path@ == local_path
        &&& r->Ok_0.call@ == call
    }
}

fn begin_exchange<C, H>(
    rt: &Runtime<C, H>,
    serial: Option<&Vec<u16>>,
    over_control: bool,
    local_path: String,
    call: Call,
) -> (r: Result<Exchange, ProfilerResult>)
    requires
        rt.wf(),
        callable(*rt, serial, true),
    ensures
        exchange(*rt, serial, true, over_control, local_path@, call@, r),
{
    if serial.is_none() {
        return Err(ProfilerResult::InvalidParameter);
    }
    let name = from_wide(serial);
    let found = match &rt.state {
        Some(state) => state.connections.get(name.as_str()),
        None => None,
    };
    match found {
        Some(entry) => {
            let sync_addr = if over_control {
                sync_control_addr(entry)
            } else {
                None
            };
            Ok(Exchange { serial: name, sync_addr, local_path, call })
        },
        None => Err(ProfilerResult::DeviceNotFound),
    }
}

// ---------------------------------------------------------------------------
// Real-time benchmark streams and recordings
// ---------------------------------------------------------------------------

/// Starts a real-time benchmark stream that measures what goes with its mode.
pub fn profiler_start_rtb<C, H>(
    rt: &Runtime<C, H>,
    serial: Option<&Vec<u16>>,
    pid: i32,
    interval_secs: Double,
    mode: Option<&Vec<u16>>,
    handle_out_given: bool,
) -> (r: Result<Exchange, ProfilerResult>)
    requires
        rt.wf(),
        callable(*rt, serial, handle_out_given),
    ensures
        exchange(
            *rt,
            serial,
            handle_out_given,
            true,
            Seq::empty(),
            (Request::StartRtbStream {
                pid,
                interval_secs,
                mode: text_given(mode),
                options: chosen_options(None, text_given(mode)),
            }),
            r,
        ),
{
    profiler_start_rtb_ex(rt, serial, pid, interval_secs, mode, None, handle_out_given)
}

/// Starts a real-time benchmark stream. Without options it measures what goes
/// with its mode.
pub fn profiler_start_rtb_ex<C, H>(
    rt: &Runtime<C, H>,
    serial: Option<&Vec<u16>>,
    pid: i32,
    interval_secs: Double,
    mode: Option<&Vec<u16>>,
    options: Option<ProfilerRtbOptions>,
    handle_out_given: bool,
) -> (r: Result<Exchange, ProfilerResult>)
    requires
        rt.wf(),
        callable(*rt, serial, handle_out_given),
    ensures
        exchange(
            *rt,
            serial,
            handle_out_given,
            true,
            Seq::empty(),
            (Request::StartRtbStream {
                pid,
                interval_secs,
                mode: text_given(mode),
                options: chosen_options(options, text_given(mode)),
            }),
            r,
        ),
{
    if !handle_out_given {
        return Err(ProfilerResult::InvalidParameter);
    }
    let mode = from_wide(mode);
    let options = rtb_options(options, mode.as_str());
    let call = Request::StartRtbStream { pid, interval_secs, mode, options };
    begin_exchange(rt, serial, true, String::new(), call)
}

/// Whether the control protocol can stop a kind of session; no kind means all
/// of them.
pub open spec fn stopped_over_control(session_type: Seq<char>) -> bool {
    session_type.len() == 0 || session_type == "rtb"@ || session_type == "perfetto"@
}

/// Stops a recording.
pub fn profiler_stop_recording<C, H>(
    rt: &Runtime<C, H>,
    serial: Option<&Vec<u16>>,
    session_type: Option<&Vec<u16>>,
) -> (r: Result<Exchange, ProfilerResult>)
    requires
        rt.wf(),
        callable(*rt, serial, true),
    ensures
        exchange(
            *rt,
            serial,
            true,
            stopped_over_control(text_given(session_type)),
            Seq::empty(),
            (Request::StopRecording { session_type: text_given(session_type) }),
            r,
        ),
{
    let session_type = from_wide(session_type);
    let over_control = session_type.as_str().unicode_len() == 0 || same_text(
        session_type.as_str(),
        "rtb",
    ) || same_text(session_type.as_str(), "perfetto");
    begin_exchange(
        rt,
        serial,
        over_control,
        String::new(),
        Request::StopRecording { session_type },
    )
}

// ---------------------------------------------------------------------------
// The rest
// ---------------------------------------------------------------------------

/// Asks for the daemon's version and status.
pub fn profiler_health_check<C, H>(
    rt: &Runtime<C, H>,
    serial: Option<&Vec<u16>>,
    out_given: bool,
) -> (r: Result<Exchange, ProfilerResult>)
    requires
        rt.wf(),
        callable(*rt, serial, out_given),
    ensures
        exchange(*rt, serial, out_given, true, Seq::empty(), Request::Health, r),
{
    if !out_given {
        return Err(ProfilerResult::InvalidParameter);
    }
    begin_exchange(rt, serial, true, String::new(), Request::Health)
}

/// Asks for the app in the foreground.
pub fn profiler_get_top_app<C, H>(
    rt: &Runtime<C, H>,
    serial: Option<&Vec<u16>>,
    out_given: bool,
) -> (r: Result<Exchange, ProfilerResult>)
    requires
        rt.wf(),
        callable(*rt, serial, out_given),
    ensures
        exchange(*rt, serial, out_given, true, Seq::empty(), Request::GetTopApp, r),
{
    if !out_given {
        return Err(ProfilerResult::InvalidParameter);
    }
    begin_exchange(rt, serial, true, String::new(), Request::GetTopApp)
}

/// Asks for the process of a package.
pub fn profiler_get_pid<C, H>(
    rt: &Runtime<C, H>,
    serial: Option<&Vec<u16>>,
    package: Option<&Vec<u16>>,
    out_given: bool,
) -> (r: Result<Exchange, ProfilerResult>)
    requires
        rt.wf(),
        callable(*rt, serial, package is Some && out_given),
    ensures
        exchange(
            *rt,
            serial,
            package is Some && out_given,
            true,
            Seq::empty(),
            (Request::GetPid { package_name: text_given(package) }),
            r,
        ),
{
    if package.is_none() || !out_given {
        return Err(ProfilerResult::InvalidParameter);
    }
    begin_exchange(
        rt,
        serial,
        true,
        String::new(),
        Request::GetPid { package_name: from_wide(package) },
    )
}

/// Starts a trace. A configuration that is given stands in for the mode.
pub fn profiler_start_perfetto<C, H>(
    rt: &Runtime<C, H>,
    serial: Option<&Vec<u16>>,
    pid: i32,
    mode: Option<&Vec<u16>>,
    duration_secs: i32,
    config_pbtxt: Option<&Vec<u16>>,
) -> (r: Result<Exchange, ProfilerResult>)
    requires
        rt.wf(),
        callable(*rt, serial, mode is Some),
    ensures
        exchange(
            *rt,
            serial,
            mode is Some,
            true,
            Seq::empty(),
            (
                Request::StartPerfetto {
                    pid,
                    mode: text_given(mode),
                    duration_secs,
                    config_pbtxt: text_given(config_pbtxt),
                }
            ),
            r,
        ),
{
    if mode.is_none() {
        return Err(ProfilerResult::InvalidParameter);
    }
    begin_exchange(
        rt,
        serial,
        true,
        String::new(),
        Request::StartPerfetto {
            pid,
            mode: from_wide(mode),
            duration_secs,
            config_pbtxt: from_wide(config_pbtxt),
        },
    )
}

/// Asks how far a trace has come.
pub fn profiler_get_perfetto_status<C, H>(
    rt: &Runtime<C, H>,
    serial: Option<&Vec<u16>>,
    out_given: bool,
) -> (r: Result<Exchange, ProfilerResult>)
    requires
        rt.wf(),
        callable(*rt, serial, out_given),
    ensures
        exchange(*rt, serial, out_given, true, Seq::empty(), Request::GetPerfettoStatus, r),
{
    if !out_given {
        return Err(ProfilerResult::InvalidParameter);
    }
    begin_exchange(rt, serial, true, String::new(), Request::GetPerfettoStatus)
}

/// Copies a file from the device.
pub fn profiler_pull_file<C, H>(
    rt: &Runtime<C, H>,
    serial: Option<&Vec<u16>>,
    remote: Option<&Vec<u16>>,
    local: Option<&Vec<u16>>,
) -> (r: Result<Exchange, ProfilerResult>)
    requires
        rt.wf(),
        callable(*rt, serial, remote is Some && local is Some),
    ensures
        exchange(
            *rt,
            serial,
            remote is Some && local is Some,
            true,
            text_given(local),
            (Request::PullFile { remote_path: text_given(remote) }),
            r,
        ),
{
    if remote.is_none() || local.is_none() {
        return Err(ProfilerResult::InvalidParameter);
    }
    begin_exchange(
        rt,
        serial,
        true,
        from_wide(local),
        Request::PullFile { remote_path: from_wide(remote) },
    )
}

/// Lists the installed packages.
pub fn profiler_list_packages<C, H>(
    rt: &Runtime<C, H>,
    serial: Option<&Vec<u16>>,
    third_party_only: bool,
    out_given: bool,
) -> (r: Result<Exchange, ProfilerResult>)
    requires
        rt.wf(),
        callable(*rt, serial, out_given),
    ensures
        exchange(
            *rt,
            serial,
            out_given,
            true,
            Seq::empty(),
            (Request::ListPackages { third_party_only }),
            r,
        ),
{
    if !out_given {
        return Err(ProfilerResult::InvalidParameter);
    }
    begin_exchange(rt, serial, true, String::new(), Request::ListPackages { third_party_only })
}

/// Asks for a package.
pub fn profiler_get_package_info<C, H>(
    rt: &Runtime<C, H>,
    serial: Option<&Vec<u16>>,
    package: Option<&Vec<u16>>,
    out_given: bool,
) -> (r: Result<Exchange, ProfilerResult>)
    requires
        rt.wf(),
        callable(*rt, serial, package is Some && out_given),
    ensures
        exchange(
            *rt,
            serial,
            package is Some && out_given,
            true,
            Seq::empty(),
            (Request::GetPackageInfo { package_name: text_given(package) }),
            r,
        ),
{
    if package.is_none() || !out_given {
        return Err(ProfilerResult::InvalidParameter);
    }
    begin_exchange(
        rt,
        serial,
        true,
        String::new(),
        Request::GetPackageInfo { package_name: from_wide(package) },
    )
}

/// Starts an app.
pub fn profiler_launch_app<C, H>(
    rt: &Runtime<C, H>,
    serial: Option<&Vec<u16>>,
    package: Option<&Vec<u16>>,
) -> (r: Result<Exchange, ProfilerResult>)
    requires
        rt.wf(),
        callable(*rt, serial, package is Some),
    ensures
        exchange(
            *rt,
            serial,
            package is Some,
            true,
            Seq::empty(),
            (Request::LaunchApp { package_name: text_given(package) }),
            r,
        ),
{
    if package.is_none() {
        return Err(ProfilerResult::InvalidParameter);
    }
    begin_exchange(
        rt,
        serial,
        true,
        String::new(),
        Request::LaunchApp { package_name: from_wide(package) },
    )
}

/// Stops an app.
pub fn profiler_stop_app<C, H>(
    rt: &Runtime<C, H>,
    serial: Option<&Vec<u16>>,
    package: Option<&Vec<u16>>,
) -> (r: Result<Exchange, ProfilerResult>)
    requires
        rt.wf(),
        callable(*rt, serial, package is Some),
    ensures
        exchange(
            *rt,
            serial,
            package is Some,
            true,
            Seq::empty(),
            (Request::StopApp { package_name: text_given(package) }),
            r,
        ),
{
    if package.is_none() {
        return Err(ProfilerResult::InvalidParameter);
    }
    begin_exchange(
        rt,
        serial,
        true,
        String::new(),
        Request::StopApp { package_name: from_wide(package) },
    )
}

/// Runs a shell command as the daemon.
pub fn profiler_shell<C, H>(
    rt: &Runtime<C, H>,
    serial: Option<&Vec<u16>>,
    command: Option<&Vec<u16>>,
    out_given: bool,
) -> (r: Result<Exchange, ProfilerResult>)
    requires
        rt.wf(),
        callable(*rt, serial, command is Some && out_given),
    ensures
        exchange(
            *rt,
            serial,
            command is Some && out_given,
            true,
            Seq::empty(),
            (Request::Shell { command: text_given(command) }),
            r,
        ),
{
    if command.is_none() || !out_given {
        return Err(ProfilerResult::InvalidParameter);
    }
    begin_exchange(rt, serial, true, String::new(), Request::Shell { command: from_wide(command) })
}

/// Asks for the size of the screen.
pub fn profiler_get_screen_size<C, H>(
    rt: &Runtime<C, H>,
    serial: Option<&Vec<u16>>,
    width_out_given: bool,
    height_out_given: bool,
) -> (r: Result<Exchange, ProfilerResult>)
    requires
        rt.wf(),
        callable(*rt, serial, width_out_given && height_out_given),
    ensures
        exchange(
            *rt,
            serial,
            width_out_given && height_out_given,
            true,
            Seq::empty(),
            Request::GetScreenSize,
            r,
        ),
{
    if !width_out_given || !height_out_given {
        return Err(ProfilerResult::InvalidParameter);
    }
    begin_exchange(rt, serial, true, String::new(), Request::GetScreenSize)
}

/// Copies what the screen shows to a file.
pub fn profiler_screenshot<C, H>(
    rt: &Runtime<C, H>,
    serial: Option<&Vec<u16>>,
    quality: i32,
    local_path: Option<&Vec<u16>>,
) -> (r: Result<Exchange, ProfilerResult>)
    requires
        rt.wf(),
        callable(*rt, serial, local_path is Some),
    ensures
        exchange(
            *rt,
            serial,
            local_path is Some,
            true,
            text_given(local_path),
            (Request::Screenshot { quality }),
            r,
        ),
{
    if local_path.is_none() {
        return Err(ProfilerResult::InvalidParameter);
    }
    begin_exchange(rt, serial, true, from_wide(local_path), Request::Screenshot { quality })
}

/// Taps the screen.
pub fn profiler_input_tap<C, H>(
    rt: &Runtime<C, H>,
    serial: Option<&Vec<u16>>,
    x: i32,
    y: i32,
) -> (r: Result<Exchange, ProfilerResult>)
    requires
        rt.wf(),
        callable(*rt, serial, true),
    ensures
        exchange(*rt, serial, true, true, Seq::empty(), (Request::InputTap { x, y }), r),
{
    begin_exchange(rt, serial, true, String::new(), Request::InputTap { x, y })
}

/// Swipes over the screen.
pub fn profiler_input_swipe<C, H>(
    rt: &Runtime<C, H>,
    serial: Option<&Vec<u16>>,
    x1: i32,
    y1: i32,
    x2: i32,
    y2: i32,
    duration_ms: i32,
) -> (r: Result<Exchange, ProfilerResult>)
    requires
        rt.wf(),
        callable(*rt, serial, true),
    ensures
        exchange(
            *rt,
            serial,
            true,
            true,
            Seq::empty(),
            (Request::InputSwipe { x1, y1, x2, y2, duration_ms }),
            r,
        ),
{
    begin_exchange(
        rt,
        serial,
        true,
        String::new(),
        Request::InputSwipe { x1, y1, x2, y2, duration_ms },
    )
}

/// Types a text.
pub fn profiler_input_text<C, H>(
    rt: &Runtime<C, H>,
    serial: Option<&Vec<u16>>,
    text: Option<&Vec<u16>>,
) -> (r: Result<Exchange, ProfilerResult>)
    requires
        rt.wf(),
        callable(*rt, serial, text is Some),
    ensures
        exchange(
            *rt,
            serial,
            text is Some,
            true,
            Seq::empty(),
            (Request::InputText { text: text_given(text) }),
            r,
        ),
{
    if text.is_none() {
        return Err(ProfilerResult::InvalidParameter);
    }
    begin_exchange(rt, serial, true, String::new(), Request::InputText { text: from_wide(text) })
}

/// Presses a key.
pub fn profiler_input_key_event<C, H>(
    rt: &Runtime<C, H>,
    serial: Option<&Vec<u16>>,
    key_code: i32,
) -> (r: Result<Exchange, ProfilerResult>)
    requires
        rt.wf(),
        callable(*rt, serial, true),
    ensures
        exchange(*rt, serial, true, true, Seq::empty(), (Request::InputKeyEvent { key_code }), r),
{
    begin_exchange(rt, serial, true, String::new(), Request::InputKeyEvent { key_code })
}

/// Copies a file to the device.
pub fn profiler_push_file<C, H>(
    rt: &Runtime<C, H>,
    serial: Option<&Vec<u16>>,
    local: Option<&Vec<u16>>,
    remote: Option<&Vec<u16>>,
) -> (r: Result<Exchange, ProfilerResult>)
    requires
        rt.wf(),
        callable(*rt, serial, local is Some && remote is Some),
    ensures
        exchange(
            *rt,
            serial,
            local is Some && remote is Some,
            true,
            text_given(local),
            (Request::PushFile { remote_path: text_given(remote) }),
            r,
        ),
{
    if local.is_none() || remote.is_none() {
        return Err(ProfilerResult::InvalidParameter);
    }
    begin_exchange(
        rt,
        serial,
        true,
        from_wide(local),
        Request::PushFile { remote_path: from_wide(remote) },
    )
}

/// Asks for a property of the device.
pub fn profiler_get_device_prop<C, H>(
    rt: &Runtime<C, H>,
    serial: Option<&Vec<u16>>,
    prop: Option<&Vec<u16>>,
    out_given: bool,
) -> (r: Result<Exchange, ProfilerResult>)
    requires
        rt.wf(),
        callable(*rt, serial, prop is Some && out_given),
    ensures
        exchange(
            *rt,
            serial,
            prop is Some && out_given,
            true,
            Seq::empty(),
            (Request::GetDeviceProp { prop_name: text_given(prop) }),
            r,
        ),
{
    if prop.is_none() || !out_given {
        return Err(ProfilerResult::InvalidParameter);
    }
    begin_exchange(
        rt,
        serial,
        true,
        String::new(),
        Request::GetDeviceProp { prop_name: from_wide(prop) },
    )
}

/// Gives the device an identifier.
pub fn profiler_set_device_id<C, H>(
    rt: &Runtime<C, H>,
    serial: Option<&Vec<u16>>,
    device_id: Option<&Vec<u16>>,
) -> (r: Result<Exchange, ProfilerResult>)
    requires
        rt.wf(),
        callable(*rt, serial, device_id is Some),
    ensures
        exchange(
            *rt,
            serial,
            device_id is Some,
            true,
            Seq::empty(),
            (Request::SetDeviceId { device_id: text_given(device_id) }),
            r,
        ),
{
    if device_id.is_none() {
        return Err(ProfilerResult::InvalidParameter);
    }
    begin_exchange(
        rt,
        serial,
        true,
        String::new(),
        Request::SetDeviceId { device_id: from_wide(device_id) },
    )
}

/// Asks whether a path is there.
pub fn profiler_path_exists<C, H>(
    rt: &Runtime<C, H>,
    serial: Option<&Vec<u16>>,
    path: Option<&Vec<u16>>,
    out_given: bool,
) -> (r: Result<Exchange, ProfilerResult>)
    requires
        rt.wf(),
        callable(*rt, serial, path is Some && out_given),
    ensures
        exchange(
            *rt,
            serial,
            path is Some && out_given,
            true,
            Seq::empty(),
            (Request::PathExists { path: text_given(path) }),
            r,
        ),
{
    if path.is_none() || !out_given {
        return Err(ProfilerResult::InvalidParameter);
    }
    begin_exchange(rt, serial, true, String::new(), Request::PathExists { path: from_wide(path) })
}

/// Asks for the device's temperatures.
pub fn profiler_get_temperature<C, H>(
    rt: &Runtime<C, H>,
    serial: Option<&Vec<u16>>,
    out_given: bool,
) -> (r: Result<Exchange, ProfilerResult>)
    requires
        rt.wf(),
        callable(*rt, serial, out_given),
    ensures
        exchange(*rt, serial, out_given, true, Seq::empty(), Request::GetTemperature, r),
{
    if !out_given {
        return Err(ProfilerResult::InvalidParameter);
    }
    begin_exchange(rt, serial, true, String::new(), Request::GetTemperature)
}

/// Asks for what a recording showed as a whole.
pub fn profiler_get_rtb_summary<C, H>(
    rt: &Runtime<C, H>,
    serial: Option<&Vec<u16>>,
    out_given: bool,
) -> (r: Result<Exchange, ProfilerResult>)
    requires
        rt.wf(),
        callable(*rt, serial, out_given),
    ensures
        exchange(*rt, serial, out_given, true, Seq::empty(), Request::GetRtbSummary, r),
{
    if !out_given {
        return Err(ProfilerResult::InvalidParameter);
    }
    begin_exchange(rt, serial, true, String::new(), Request::GetRtbSummary)
}

/// Installs a package that is on the device.
pub fn profiler_install_apk<C, H>(
    rt: &Runtime<C, H>,
    serial: Option<&Vec<u16>>,
    remote_apk_path: Option<&Vec<u16>>,
) -> (r: Result<Exchange, ProfilerResult>)
    requires
        rt.wf(),
        callable(*rt, serial, remote_apk_path is Some),
    ensures
        exchange(
            *rt,
            serial,
            remote_apk_path is Some,
            true,
            Seq::empty(),
            (Request::InstallApk { remote_apk_path: text_given(remote_apk_path) }),
            r,
        ),
{
    if remote_apk_path.is_none() {
        return Err(ProfilerResult::InvalidParameter);
    }
    begin_exchange(
        rt,
        serial,
        true,
        String::new(),
        Request::InstallApk { remote_apk_path: from_wide(remote_apk_path) },
    )
}

/// Asks for the surfaces of a package.
pub fn profiler_get_surface_names<C, H>(
    rt: &Runtime<C, H>,
    serial: Option<&Vec<u16>>,
    package_name: Option<&Vec<u16>>,
    out_given: bool,
) -> (r: Result<Exchange, ProfilerResult>)
    requires
        rt.wf(),
        callable(*rt, serial, package_name is Some && out_given),
    ensures
        exchange(
            *rt,
            serial,
            package_name is Some && out_given,
            true,
            Seq::empty(),
            (Request::GetSurfaceNames { package_name: text_given(package_name) }),
            r,
        ),
{
    if package_name.is_none() || !out_given {
        return Err(ProfilerResult::InvalidParameter);
    }
    begin_exchange(
        rt,
        serial,
        true,
        String::new(),
        Request::GetSurfaceNames { package_name: from_wide(package_name) },
    )
}

/// Switches charging on or off.
pub fn profiler_set_charging<C, H>(
    rt: &Runtime<C, H>,
    serial: Option<&Vec<u16>>,
    enable: bool,
) -> (r: Result<Exchange, ProfilerResult>)
    requires
        rt.wf(),
        callable(*rt, serial, true),
    ensures
        exchange(*rt, serial, true, true, Seq::empty(), (Request::SetCharging { enable }), r),
{
    begin_exchange(rt, serial, true, String::new(), Request::SetCharging { enable })
}

/// Removes a file.
pub fn profiler_remove_file<C, H>(
    rt: &Runtime<C, H>,
    serial: Option<&Vec<u16>>,
    path: Option<&Vec<u16>>,
) -> (r: Result<Exchange, ProfilerResult>)
    requires
        rt.wf(),
        callable(*rt, serial, path is Some),
    ensures
        exchange(
            *rt,
            serial,
            path is Some,
            true,
            Seq::empty(),
            (Request::RemoveFile { path: text_given(path) }),
            r,
        ),
{
    if path.is_none() {
        return Err(ProfilerResult::InvalidParameter);
    }
    begin_exchange(rt, serial, true, String::new(), Request::RemoveFile { path: from_wide(path) })
}

/// Packs files into an archive.
pub fn profiler_create_archive<C, H>(
    rt: &Runtime<C, H>,
    serial: Option<&Vec<u16>>,
    working_directory: Option<&Vec<u16>>,
    target: Option<&Vec<u16>>,
    output_path: Option<&Vec<u16>>,
) -> (r: Result<Exchange, ProfilerResult>)
    requires
        rt.wf(),
        callable(*rt, serial, working_directory is Some && target is Some && output_path is Some),
    ensures
        exchange(
            *rt,
            serial,
            working_directory is Some && target is Some && output_path is Some,
            true,
            Seq::empty(),
            (
                Request::CreateArchive {
                    working_directory: text_given(working_directory),
                    target: text_given(target),
                    output_path: text_given(output_path),
                }
            ),
            r,
        ),
{
    if working_directory.is_none() || target.is_none() || output_path.is_none() {
        return Err(ProfilerResult::InvalidParameter);
    }
    begin_exchange(
        rt,
        serial,
        true,
        String::new(),
        Request::CreateArchive {
            working_directory: from_wide(working_directory),
            target: from_wide(target),
            output_path: from_wide(output_path),
        },
    )
}

/// Unpacks an archive.
pub fn profiler_extract_archive<C, H>(
    rt: &Runtime<C, H>,
    serial: Option<&Vec<u16>>,
    working_directory: Option<&Vec<u16>>,
    archive_path: Option<&Vec<u16>>,
) -> (r: Result<Exchange, ProfilerResult>)
    requires
        rt.wf(),
        callable(*rt, serial, working_directory is Some && archive_path is Some),
    ensures
        exchange(
            *rt,
            serial,
            working_directory is Some && archive_path is Some,
            true,
            Seq::empty(),
            (
                Request::ExtractArchive {
                    working_directory: text_given(working_directory),
                    archive_path: text_given(archive_path),
                }
            ),
            r,
        ),
{
    if working_directory.is_none() || archive_path.is_none() {
        return Err(ProfilerResult::InvalidParameter);
    }
    begin_exchange(
        rt,
        serial,
        true,
        String::new(),
        Request::ExtractArchive {
            working_directory: from_wide(working_directory),
            archive_path: from_wide(archive_path),
        },
    )
}

/// Changes the permissions of a file.
pub fn profiler_chmod<C, H>(
    rt: &Runtime<C, H>,
    serial: Option<&Vec<u16>>,
    path: Option<&Vec<u16>>,
    mode: Option<&Vec<u16>>,
    recursive: bool,
) -> (r: Result<Exchange, ProfilerResult>)
    requires
        rt.wf(),
        callable(*rt, serial, path is Some && mode is Some),
    ensures
        exchange(
            *rt,
            serial,
            path is Some && mode is Some,
            true,
            Seq::empty(),
            (Request::Chmod { path: text_given(path), mode: text_given(mode), recursive }),
            r,
        ),
{
    if path.is_none() || mode.is_none() {
        return Err(ProfilerResult::InvalidParameter);
    }
    begin_exchange(
        rt,
        serial,
        true,
        String::new(),
        Request::Chmod { path: from_wide(path), mode: from_wide(mode), recursive },
    )
}

/// Changes the owner of a file.
pub fn profiler_chown<C, H>(
    rt: &Runtime<C, H>,
    serial: Option<&Vec<u16>>,
    path: Option<&Vec<u16>>,
    uid: i32,
    gid: i32,
    recursive: bool,
) -> (r: Result<Exchange, ProfilerResult>)
    requires
        rt.wf(),
        callable(*rt, serial, path is Some),
    ensures
        exchange(
            *rt,
            serial,
            path is Some,
            true,
            Seq::empty(),
            (Request::Chown { path: text_given(path), uid, gid, recursive }),
            r,
        ),
{
    if path.is_none() {
        return Err(ProfilerResult::InvalidParameter);
    }
    begin_exchange(
        rt,
        serial,
        true,
        String::new(),
        Request::Chown { path: from_wide(path), uid, gid, recursive },
    )
}

/// Asks for the owner of a file.
pub fn profiler_get_file_owner<C, H>(
    rt: &Runtime<C, H>,
    serial: Option<&Vec<u16>>,
    path: Option<&Vec<u16>>,
    uid_out_given: bool,
) -> (r: Result<Exchange, ProfilerResult>)
    requires
        rt.wf(),
        callable(*rt, serial, path is Some && uid_out_given),
    ensures
        exchange(
            *rt,
            serial,
            path is Some && uid_out_given,
            true,
            Seq::empty(),
            (Request::GetFileOwner { path: text_given(path) }),
            r,
        ),
{
    if path.is_none() || !uid_out_given {
        return Err(ProfilerResult::InvalidParameter);
    }
    begin_exchange(rt, serial, true, String::new(), Request::GetFileOwner { path: from_wide(path) })
}

/// Asks for the events that the kernel can trace.
pub fn profiler_discover_ftrace_events<C, H>(
    rt: &Runtime<C, H>,
    serial: Option<&Vec<u16>>,
    out_given: bool,
) -> (r: Result<Exchange, ProfilerResult>)
    requires
        rt.wf(),
        callable(*rt, serial, out_given),
    ensures
        exchange(*rt, serial, out_given, true, Seq::empty(), Request::DiscoverFtraceEvents, r),
{
    if !out_given {
        return Err(ProfilerResult::InvalidParameter);
    }
    begin_exchange(rt, serial, true, String::new(), Request::DiscoverFtraceEvents)
}

/// Asks for the events that the performance monitors can count.
pub fn profiler_discover_pmu_events<C, H>(
    rt: &Runtime<C, H>,
    serial: Option<&Vec<u16>>,
    out_given: bool,
) -> (r: Result<Exchange, ProfilerResult>)
    requires
        rt.wf(),
        callable(*rt, serial, out_given),
    ensures
        exchange(*rt, serial, out_given, true, Seq::empty(), Request::DiscoverPmuEvents, r),
{
    if !out_given {
        return Err(ProfilerResult::InvalidParameter);
    }
    begin_exchange(rt, serial, true, String::new(), Request::DiscoverPmuEvents)
}

/// Asks how many counters each core has.
pub fn profiler_get_pmu_hw_counters<C, H>(
    rt: &Runtime<C, H>,
    serial: Option<&Vec<u16>>,
    out_given: bool,
) -> (r: Result<Exchange, ProfilerResult>)
    requires
        rt.wf(),
        callable(*rt, serial, out_given),
    ensures
        exchange(*rt, serial, out_given, true, Seq::empty(), Request::GetPmuHwCounters, r),
{
    if !out_given {
        return Err(ProfilerResult::InvalidParameter);
    }
    begin_exchange(rt, serial, true, String::new(), Request::GetPmuHwCounters)
}

/// Asks for the GPUs and their counters.
pub fn profiler_discover_gpu_counters<C, H>(
    rt: &Runtime<C, H>,
    serial: Option<&Vec<u16>>,
    out_given: bool,
) -> (r: Result<Exchange, ProfilerResult>)
    requires
        rt.wf(),
        callable(*rt, serial, out_given),
    ensures
        exchange(*rt, serial, out_given, true, Seq::empty(), Request::DiscoverGpuCounters, r),
{
    if !out_given {
        return Err(ProfilerResult::InvalidParameter);
    }
    begin_exchange(rt, serial, true, String::new(), Request::DiscoverGpuCounters)
}

/// Starts a stream of cache reports.
pub fn profiler_start_cr<C, H>(
    rt: &Runtime<C, H>,
    serial: Option<&Vec<u16>>,
    interval_secs: Double,
    cpus: &Option<Vec<i32>>,
    exclude_kernel: bool,
    diff_kernel: bool,
    full_mode: bool,
    custom_events: &Option<Vec<u32>>,
    handle_out_given: bool,
) -> (r: Result<Exchange, ProfilerResult>)
    requires
        rt.wf(),
        callable(*rt, serial, handle_out_given),
    ensures
        exchange(
            *rt,
            serial,
            handle_out_given,
            true,
            Seq::empty(),
            (
                Request::StartCrStream {
                    interval_secs,
                    cpus: numbers_of(*cpus),
                    exclude_kernel,
                    diff_kernel,
                    full_mode,
                    custom_events: numbers_of(*custom_events),
                }
            ),
            r,
        ),
{
    if !handle_out_given {
        return Err(ProfilerResult::InvalidParameter);
    }
    begin_exchange(
        rt,
        serial,
        true,
        String::new(),
        Request::StartCrStream {
            interval_secs,
            cpus: numbers(cpus),
            exclude_kernel,
            diff_kernel,
            full_mode,
            custom_events: numbers(custom_events),
        },
    )
}

/// Starts a stream of cache reports of threads.
pub fn profiler_start_tc<C, H>(
    rt: &Runtime<C, H>,
    serial: Option<&Vec<u16>>,
    pid: i32,
    interval_secs: Double,
    exclude_kernel: bool,
    diff_kernel: bool,
    top_threads_count: i32,
    full_mode: bool,
    custom_events: &Option<Vec<u32>>,
    handle_out_given: bool,
) -> (r: Result<Exchange, ProfilerResult>)
    requires
        rt.wf(),
        callable(*rt, serial, handle_out_given),
    ensures
        exchange(
            *rt,
            serial,
            handle_out_given,
            true,
            Seq::empty(),
            (
                Request::StartTcStream {
                    pid,
                    interval_secs,
                    exclude_kernel,
                    diff_kernel,
                    top_threads_count,
                    full_mode,
                    custom_events: numbers_of(*custom_events),
                }
            ),
            r,
        ),
{
    if !handle_out_given {
        return Err(ProfilerResult::InvalidParameter);
    }
    begin_exchange(
        rt,
        serial,
        true,
        String::new(),
        Request::StartTcStream {
            pid,
            interval_secs,
            exclude_kernel,
            diff_kernel,
            top_threads_count,
            full_mode,
            custom_events: numbers(custom_events),
        },
    )
}

/// Starts a latency benchmark.
pub fn profiler_start_cml<C, H>(
    rt: &Runtime<C, H>,
    serial: Option<&Vec<u16>>,
    cpus: &Option<Vec<i32>>,
    max_footprint_kb: u32,
    min_footprint_kb: u32,
    handle_out_given: bool,
) -> (r: Result<Exchange, ProfilerResult>)
    requires
        rt.wf(),
        callable(*rt, serial, handle_out_given),
    ensures
        exchange(
            *rt,
            serial,
            handle_out_given,
            true,
            Seq::empty(),
            (
                Request::StartCmlStream {
                    cpus: numbers_of(*cpus),
                    max_footprint_kb,
                    min_footprint_kb,
                }
            ),
            r,
        ),
{
    if !handle_out_given {
        return Err(ProfilerResult::InvalidParameter);
    }
    begin_exchange(
        rt,
        serial,
        true,
        String::new(),
        Request::StartCmlStream { cpus: numbers(cpus), max_footprint_kb, min_footprint_kb },
    )
}

/// Starts a stream of the GPU's counters, of which at least one is to be named.
pub fn profiler_start_gc<C, H>(
    rt: &Runtime<C, H>,
    serial: Option<&Vec<u16>>,
    gpu_device_number: u32,
    interval_secs: Double,
    counter_ids: &Option<Vec<u32>>,
    handle_out_given: bool,
) -> (r: Result<Exchange, ProfilerResult>)
    requires
        rt.wf(),
        callable(*rt, serial, numbers_of(*counter_ids).len() > 0 && handle_out_given),
    ensures
        exchange(
            *rt,
            serial,
            numbers_of(*counter_ids).len() > 0 && handle_out_given,
            true,
            Seq::empty(),
            (
                Request::StartGcStream {
                    gpu_device_number,
                    interval_secs,
                    counter_ids: numbers_of(*counter_ids),
                }
            ),
            r,
        ),
{
    let counter_ids_list = numbers(counter_ids);
    if counter_ids_list.len() == 0 || !handle_out_given {
        return Err(ProfilerResult::InvalidParameter);
    }
    begin_exchange(
        rt,
        serial,
        true,
        String::new(),
        Request::StartGcStream { gpu_device_number, interval_secs, counter_ids: counter_ids_list },
    )
}

} // verus!
