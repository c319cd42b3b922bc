//! The runtime, the connections and the commands of `adb`, for callers in
//! other languages.
use vstd::prelude::*;
use crate::adb::commands::{
    AdbCommand, connect_device, disconnect, disconnect_all, pull, remount, reverse, reverse_remove,
    root, shell, tcpip,
};
use crate::adb::devices::{DeviceInfo, get_devices};
use crate::connect::{ConnectPlan, DAEMON_PORT};
use crate::core_api::{WifiConnect, is_linked};
use crate::ffi::calls::{callable, text_given};
use crate::ffi::outcome::{Verdict, went_well, went_wrong};
use crate::ffi::records::{all_handed, device_list_to_ffi, option_units};
use crate::ffi::types::{ProfilerDeviceList, ProfilerResult};
use crate::runtime::{
    Runtime, RuntimeState, Shutdown, error_taken, init_runtime, initialized, shut_down,
    shutdown_runtime, take_last_error,
};
use crate::text::{concat2, concat3, join, joined, texts};
use crate::wide::{from_wide, to_wide, to_wide_unless_empty, wide, wide_unless_empty};

verus! {

// ---------------------------------------------------------------------------
// The runtime
// ---------------------------------------------------------------------------

/// Sets the runtime up, unless it already is.
pub fn profiler_init<C, H>(rt: &mut Runtime<C, H>) -> (r: ProfilerResult)
    requires
        old(rt).wf(),
    ensures
        final(rt).wf(),
        initialized(*old(rt), old(rt).state is None, *final(rt)),
        r == ProfilerResult::Success,
{
    let _ = init_runtime(rt);
    ProfilerResult::Success
}

/// Forgets every stream and every connection, and hands them back.
pub fn profiler_shutdown<C, H>(rt: &mut Runtime<C, H>) -> (r: Option<Shutdown<C, H>>)
    requires
        old(rt).wf(),
    ensures
        final(rt).wf(),
        shut_down(*old(rt), *final(rt), r),
{
    shutdown_runtime(rt)
}

/// The error that a runtime holds; empty where it is not there.
pub open spec fn held_error<C, H>(rt: Runtime<C, H>) -> Seq<char> {
    match rt.state {
        Some(s) => s.last_error@,
        None => Seq::empty(),
    }
}

/// Hands the last error out and forgets it; nothing where there is none.
pub fn profiler_get_last_error<C, H>(rt: &mut Runtime<C, H>) -> (w: Option<Vec<u16>>)
    requires
        old(rt).wf(),
    ensures
        final(rt).wf(),
        option_units(w) == wide_unless_empty(held_error(*old(rt))),
        error_taken(*old(rt), held_error(*old(rt)), *final(rt)),
{
    let msg = take_last_error(rt);
    to_wide_unless_empty(msg.as_str())
}

// ---------------------------------------------------------------------------
// Devices
// ---------------------------------------------------------------------------

/// The command whose output lists the devices; none is run where there is
/// nowhere to put them.
pub fn profiler_get_devices(out_given: bool) -> (r: Result<AdbCommand<String>, ProfilerResult>)
    ensures
        out_given ==> r is Ok && r->Ok_0@ == AdbCommand::<Seq<char>>::Devices,
        !out_given ==> r == Err::<AdbCommand<String>, ProfilerResult>(
            ProfilerResult::InvalidParameter,
        ),
{
    if !out_given {
        return Err(ProfilerResult::InvalidParameter);
    }
    Ok(get_devices())
}

/// What listing the devices comes to: they are handed over, or none are where
/// they could not be listed.
pub fn devices_outcome(listed: &Option<Vec<DeviceInfo<String>>>) -> (r: (
    ProfilerResult,
    ProfilerDeviceList,
))
    ensures
        match listed {
            Some(d) => r.0 == ProfilerResult::Success && all_handed(d@, r.1.devices@),
            None => r.0 == ProfilerResult::OperationFailed && r.1.devices@.len() == 0,
        },
{
    let list = device_list_to_ffi(listed);
    match listed {
        Some(_) => (ProfilerResult::Success, list),
        None => (ProfilerResult::OperationFailed, list),
    }
}

// ---------------------------------------------------------------------------
// Connections
// ---------------------------------------------------------------------------

/// Whether a caller gave a text that is not empty.
pub open spec fn named(w: Option<&Vec<u16>>) -> bool {
    w is Some && text_given(w).len() > 0
}

fn named_text(w: Option<&Vec<u16>>) -> (r: Option<String>)
    ensures
        match r {
            Some(s) => named(w) && s@ == text_given(w),
            None => !named(w),
        },
{
    if w.is_none() {
        return None;
    }
    let s = from_wide(w);
    if s.as_str().unicode_len() == 0 {
        None
    } else {
        Some(s)
    }
}

/// Whether `r` is the plan `p` where the parameters allow for one, and else
/// that they do not.
pub open spec fn planned(
    given: bool,
    p: ConnectPlan<Seq<char>>,
    r: Result<ConnectPlan<String>, ProfilerResult>,
) -> bool {
    if given {
        r is Ok && r->Ok_0@ == p
    } else {
        r is Err && r->Err_0 == ProfilerResult::InvalidParameter
    }
}

/// A plan to connect to a daemon that is running.
pub open spec fn plain_plan(serial: Seq<char>, port: u16) -> ConnectPlan<Seq<char>> {
    ConnectPlan {
        serial,
        local_path: Seq::empty(),
        remote_path: Seq::empty(),
        port,
        low_overhead: false,
        deploy: false,
        strict: false,
    }
}

/// Connects to the daemon of a device through the usual port.
pub fn profiler_connect(serial: Option<&Vec<u16>>) -> (r: Result<
    ConnectPlan<String>,
    ProfilerResult,
>)
    ensures
        planned(named(serial), plain_plan(text_given(serial), DAEMON_PORT), r),
{
    profiler_connect_with_port(serial, DAEMON_PORT)
}

/// Connects to the daemon of a device through a local port.
pub fn profiler_connect_with_port(serial: Option<&Vec<u16>>, port: u16) -> (r: Result<
    ConnectPlan<String>,
    ProfilerResult,
>)
    ensures
        planned(named(serial), plain_plan(text_given(serial), port), r),
{
    match named_text(serial) {
        Some(serial) => Ok(
            ConnectPlan {
                serial,
                local_path: String::new(),
                remote_path: String::new(),
                port,
                low_overhead: false,
                deploy: false,
                strict: false,
            },
        ),
        None => Err(ProfilerResult::InvalidParameter),
    }
}

/// Deploys the daemon to a device where needed, in its low-overhead mode, and
/// connects to it.
pub fn profiler_deploy_and_connect(
    serial: Option<&Vec<u16>>,
    local_path: Option<&Vec<u16>>,
    remote_path: Option<&Vec<u16>>,
    port: u16,
) -> (r: Result<ConnectPlan<String>, ProfilerResult>)
    ensures
        planned(
            named(serial) && named(remote_path),
            (ConnectPlan {
                serial: text_given(serial),
                local_path: text_given(local_path),
                remote_path: text_given(remote_path),
                port,
                low_overhead: true,
                deploy: true,
                strict: false,
            }),
            r,
        ),
{
    profiler_deploy_and_connect_ex(serial, local_path, remote_path, port, true)
}

/// Deploys the daemon to a device where needed, and connects to it.
pub fn profiler_deploy_and_connect_ex(
    serial: Option<&Vec<u16>>,
    local_path: Option<&Vec<u16>>,
    remote_path: Option<&Vec<u16>>,
    port: u16,
    daemon_low_overhead: bool,
) -> (r: Result<ConnectPlan<String>, ProfilerResult>)
    ensures
        planned(
            named(serial) && named(remote_path),
            (ConnectPlan {
                serial: text_given(serial),
                local_path: text_given(local_path),
                remote_path: text_given(remote_path),
                port,
                low_overhead: daemon_low_overhead,
                deploy: true,
                strict: false,
            }),
            r,
        ),
{
    match (named_text(serial), named_text(remote_path)) {
        (Some(serial), Some(remote_path)) => Ok(
            ConnectPlan {
                serial,
                local_path: from_wide(local_path),
                remote_path,
                port,
                low_overhead: daemon_low_overhead,
                deploy: true,
                strict: false,
            },
        ),
        _ => Err(ProfilerResult::InvalidParameter),
    }
}

/// Drops the connection of a device.
pub fn profiler_disconnect<C, H>(rt: &mut Runtime<C, H>, serial: Option<&Vec<u16>>) -> (r:
    ProfilerResult)
    requires
        old(rt).wf(),
        callable(*old(rt), serial, true),
    ensures
        final(rt).wf(),
        match serial {
            None => *final(rt) == *old(rt) && r == ProfilerResult::InvalidParameter,
            Some(_) => {
                let before = old(rt).state->Some_0;
                let after = final(rt).state->Some_0;
                &&& final(rt).state is Some
                &&& before.same_but_connections(after)
                &&& after.connections@ == before.connections@.remove(text_given(serial))
                &&& r == if is_linked(*old(rt), text_given(serial)) {
                    ProfilerResult::Success
                } else {
                    ProfilerResult::DeviceNotFound
                }
            },
        },
{
    if serial.is_none() {
        return ProfilerResult::InvalidParameter;
    }
    let name = from_wide(serial);
    let mut taken: Option<RuntimeState<C, H>> = None;
    std::mem::swap(&mut taken, &mut rt.state);
    match taken {
        Some(mut state) => {
            let removed = state.connections.remove(name.as_str());
            rt.state = Some(state);
            match removed {
                Some(_) => ProfilerResult::Success,
                None => ProfilerResult::DeviceNotFound,
            }
        },
        None => ProfilerResult::DeviceNotFound,
    }
}

/// Whether a device is connected.
pub fn profiler_is_connected<C, H>(rt: &Runtime<C, H>, serial: Option<&Vec<u16>>) -> (r: bool)
    requires
        rt.wf(),
        callable(*rt, serial, true),
    ensures
        r == (serial is Some && is_linked(*rt, text_given(serial))),
{
    if serial.is_none() {
        return false;
    }
    let name = from_wide(serial);
    match &rt.state {
        Some(state) => state.connections.contains_key(name.as_str()),
        None => false,
    }
}

// ---------------------------------------------------------------------------
// Commands of `adb`
// ---------------------------------------------------------------------------

/// Whether `r` is the command `c` where the parameters allow for one and the
/// runtime is there to run it.
pub open spec fn commanded<C, H>(
    rt: Runtime<C, H>,
    given: bool,
    c: AdbCommand<Seq<char>>,
    r: Result<AdbCommand<String>, ProfilerResult>,
) -> bool {
    if !given {
        r is Err && r->Err_0 == ProfilerResult::InvalidParameter
    } else if rt.state is None {
        r is Err && r->Err_0 == ProfilerResult::OperationFailed
    } else {
        r is Ok && r->Ok_0@ == c
    }
}

fn command_for<C, H>(rt: &Runtime<C, H>, c: AdbCommand<String>) -> (r: Result<
    AdbCommand<String>,
    ProfilerResult,
>)
    ensures
        commanded(*rt, true, c@, r),
{
    if rt.state.is_some() {
        Ok(c)
    } else {
        Err(ProfilerResult::OperationFailed)
    }
}

/// Runs a shell command on a device.
pub fn profiler_adb_shell<C, H>(
    rt: &Runtime<C, H>,
    serial: Option<&Vec<u16>>,
    command: Option<&Vec<u16>>,
    out_given: bool,
) -> (r: Result<AdbCommand<String>, ProfilerResult>)
    ensures
        commanded(
            *rt,
            serial is Some && command is Some && out_given,
            (AdbCommand::Shell { serial: text_given(serial), command: text_given(command) }),
            r,
        ),
{
    if serial.is_none() || command.is_none() || !out_given {
        return Err(ProfilerResult::InvalidParameter);
    }
    command_for(rt, shell(from_wide(serial).as_str(), from_wide(command).as_str()))
}

/// Forwards a port of the device to a local one.
pub fn profiler_adb_reverse<C, H>(
    rt: &Runtime<C, H>,
    serial: Option<&Vec<u16>>,
    device_port: u16,
    host_port: u16,
) -> (r: Result<AdbCommand<String>, ProfilerResult>)
    ensures
        commanded(
            *rt,
            serial is Some && device_port != 0 && host_port != 0,
            (AdbCommand::Reverse { serial: text_given(serial), device_port, host_port }),
            r,
        ),
{
    if serial.is_none() || device_port == 0 || host_port == 0 {
        return Err(ProfilerResult::InvalidParameter);
    }
    command_for(rt, reverse(from_wide(serial).as_str(), device_port, host_port))
}

/// Ends the forwarding of a port of the device.
pub fn profiler_adb_reverse_remove<C, H>(
    rt: &Runtime<C, H>,
    serial: Option<&Vec<u16>>,
    device_port: u16,
) -> (r: Result<AdbCommand<String>, ProfilerResult>)
    ensures
        commanded(
            *rt,
            serial is Some && device_port != 0,
            (AdbCommand::ReverseRemove { serial: text_given(serial), device_port }),
            r,
        ),
{
    if serial.is_none() || device_port == 0 {
        return Err(ProfilerResult::InvalidParameter);
    }
    command_for(rt, reverse_remove(from_wide(serial).as_str(), device_port))
}

/// Restarts the device's side of `adb` as root.
pub fn profiler_adb_root<C, H>(
    rt: &Runtime<C, H>,
    serial: Option<&Vec<u16>>,
    out_given: bool,
) -> (r: Result<AdbCommand<String>, ProfilerResult>)
    ensures
        commanded(
            *rt,
            serial is Some && out_given,
            (AdbCommand::Root { serial: text_given(serial) }),
            r,
        ),
{
    if serial.is_none() || !out_given {
        return Err(ProfilerResult::InvalidParameter);
    }
    command_for(rt, root(from_wide(serial).as_str()))
}

/// Makes the device's system partitions writable.
pub fn profiler_adb_remount<C, H>(
    rt: &Runtime<C, H>,
    serial: Option<&Vec<u16>>,
    out_given: bool,
) -> (r: Result<AdbCommand<String>, ProfilerResult>)
    ensures
        commanded(
            *rt,
            serial is Some && out_given,
            (AdbCommand::Remount { serial: text_given(serial) }),
            r,
        ),
{
    if serial.is_none() || !out_given {
        return Err(ProfilerResult::InvalidParameter);
    }
    command_for(rt, remount(from_wide(serial).as_str()))
}

/// Copies a file from a device.
pub fn profiler_adb_pull<C, H>(
    rt: &Runtime<C, H>,
    serial: Option<&Vec<u16>>,
    remote: Option<&Vec<u16>>,
    local: Option<&Vec<u16>>,
) -> (r: Result<AdbCommand<String>, ProfilerResult>)
    ensures
        commanded(
            *rt,
            serial is Some && remote is Some && local is Some,
            (AdbCommand::Pull {
                serial: text_given(serial),
                remote: text_given(remote),
                local: text_given(local),
            }),
            r,
        ),
{
    if serial.is_none() || remote.is_none() || local.is_none() {
        return Err(ProfilerResult::InvalidParameter);
    }
    command_for(
        rt,
        pull(from_wide(serial).as_str(), from_wide(remote).as_str(), from_wide(local).as_str()),
    )
}

/// Disconnects a device that is connected over the network.
pub fn profiler_wifi_adb_disconnect<C, H>(
    rt: &Runtime<C, H>,
    serial: Option<&Vec<u16>>,
    out_given: bool,
) -> (r: Result<AdbCommand<String>, ProfilerResult>)
    ensures
        commanded(
            *rt,
            named(serial) && out_given,
            (AdbCommand::Disconnect { serial: text_given(serial) }),
            r,
        ),
{
    if !out_given {
        return Err(ProfilerResult::InvalidParameter);
    }
    match named_text(serial) {
        Some(serial) => command_for(rt, disconnect(serial.as_str())),
        None => Err(ProfilerResult::InvalidParameter),
    }
}

/// How long a device is given to restart its side of `adb` before it is
/// connected to over the network.
pub const WIFI_RESTART_SECS: u64 = 2;

/// Moves a device to the network: every other device is disconnected, this
/// one is told to listen on a port, and after `WIFI_RESTART_SECS` it is
/// connected to under its address.
pub fn profiler_wifi_adb_connect<C, H>(
    rt: &Runtime<C, H>,
    serial: Option<&Vec<u16>>,
    device_ip: Option<&Vec<u16>>,
    port: u16,
    out_given: bool,
) -> (r: Result<WifiConnect, ProfilerResult>)
    ensures
        if !(named(serial) && named(device_ip) && out_given) {
            r is Err && r->Err_0 == ProfilerResult::InvalidParameter
        } else if rt.state is None {
            r is Err && r->Err_0 == ProfilerResult::OperationFailed
        } else {
            &&& r is Ok
            &&& r->Ok_0.disconnect@ == AdbCommand::<Seq<char>>::DisconnectAll
            &&& r->Ok_0.listen@ == (AdbCommand::Tcpip { serial: text_given(serial), port })
            &&& r->Ok_0.connect@ == (AdbCommand::Connect { ip: text_given(device_ip), port })
        },
{
    if !out_given {
        return Err(ProfilerResult::InvalidParameter);
    }
    match (named_text(serial), named_text(device_ip)) {
        (Some(serial), Some(ip)) => if rt.state.is_some() {
            Ok(
                WifiConnect {
                    disconnect: disconnect_all(),
                    listen: tcpip(serial.as_str(), port),
                    connect: connect_device(ip.as_str(), port),
                },
            )
        } else {
            Err(ProfilerResult::OperationFailed)
        },
        _ => Err(ProfilerResult::InvalidParameter),
    }
}

/// What is remembered where a command failed.
pub open spec fn command_failure(c: AdbCommand<Seq<char>>, e: Seq<char>) -> Option<Seq<char>> {
    match c {
        AdbCommand::Pull { .. } => Some(e),
        AdbCommand::Reverse { .. } => Some("profiler_adb_reverse failed: "@ + e),
        AdbCommand::ReverseRemove { .. } => Some("profiler_adb_reverse_remove failed: "@ + e),
        AdbCommand::Tcpip { .. } => Some("adb tcpip failed: "@ + e),
        AdbCommand::Connect { .. } => Some("adb connect failed: "@ + e),
        AdbCommand::Disconnect { .. } => Some("adb disconnect failed: "@ + e),
        _ => None,
    }
}

/// What a command comes to for the caller, and what the caller is handed: the
/// command's text, and nothing where it failed.
pub fn command_verdict(c: &AdbCommand<String>, outcome: Result<String, String>) -> (r: (
    Verdict<String>,
    Option<Vec<u16>>,
))
    ensures
        match outcome {
            Ok(s) => r.0@ == went_well() && option_units(r.1) == Some(wide(s@)),
            Err(e) => r.0@ == went_wrong(command_failure(c@, e@)) && r.1 is None,
        },
{
    match outcome {
        Ok(s) => (
            Verdict { result: ProfilerResult::Success, last_error: None, drop_connection: false },
            Some(to_wide(s.as_str())),
        ),
        Err(e) => {
            let last_error = match c {
                AdbCommand::Pull { .. } => Some(e),
                AdbCommand::Reverse { .. } => Some(
                    concat2("profiler_adb_reverse failed: ", e.as_str()),
                ),
                AdbCommand::ReverseRemove { .. } => Some(
                    concat2("profiler_adb_reverse_remove failed: ", e.as_str()),
                ),
                AdbCommand::Tcpip { .. } => Some(concat2("adb tcpip failed: ", e.as_str())),
                AdbCommand::Connect { .. } => Some(concat2("adb connect failed: ", e.as_str())),
                AdbCommand::Disconnect { .. } => Some(
                    concat2("adb disconnect failed: ", e.as_str()),
                ),
                _ => None,
            };
            (
                Verdict {
                    result: ProfilerResult::OperationFailed,
                    last_error,
                    drop_connection: false,
                },
                None,
            )
        },
    }
}

/// What is remembered of a function that panicked.
pub open spec fn panic_words(function: Seq<char>, payload: Option<Seq<char>>) -> Seq<char> {
    match payload {
        Some(s) => function + " panicked: "@ + s,
        None => function + " panicked (unknown payload)"@,
    }
}

/// What is remembered of a function that panicked.
pub fn panic_message(function: &str, payload: Option<&str>) -> (s: String)
    ensures
        s@ == panic_words(
            function@,
            match payload {
                Some(p) => Some(p@),
                None => None,
            },
        ),
{
    match payload {
        Some(p) => concat3(function, " panicked: ", p),
        None => concat2(function, " panicked (unknown payload)"),
    }
}

/// What is handed over for the names of surfaces, a line for each; nothing
/// where they could not be had.
pub fn surface_names_to_ffi(names: &Option<Vec<String>>) -> (w: Option<Vec<u16>>)
    ensures
        match names {
            Some(v) => option_units(w) == Some(wide(joined(texts(v@), "\n"@))),
            None => w is None,
        },
{
    match names {
        Some(v) => Some(to_wide(join(v, "\n").as_str())),
        None => None,
    }
}

/// What is handed over for a text; nothing where it could not be had.
pub fn text_to_ffi(text: &Option<String>) -> (w: Option<Vec<u16>>)
    ensures
        match text {
            Some(s) => option_units(w) == Some(wide(s@)),
            None => w is None,
        },
{
    match text {
        Some(s) => Some(to_wide(s.as_str())),
        None => None,
    }
}

/// What is handed over for whether a path exists: it does not where that
/// could not be found out.
pub fn path_exists_to_ffi(exists: Option<bool>) -> (r: bool)
    ensures
        r == (exists == Some(true)),
{
    match exists {
        Some(e) => e,
        None => false,
    }
}

} // verus!
