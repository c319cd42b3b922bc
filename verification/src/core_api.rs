//! The library's interface for applications: each call checks what it was
//! given, finds the device's connection, and says what is to be sent.
use vstd::prelude::*;
use crate::adb::commands::{
    AdbCommand, connect_device, disconnect, disconnect_all, pull, push, remount, root, shell, tcpip,
};
use crate::adb::devices::get_devices;
use crate::connect::{
    ConnectEnd, ConnectError, ConnectPlan, control_addr_of, sync_control_addr,
};
use crate::double::Double;
use crate::proto::{Call, CallModel, Request, RtbStreamOptions};
use crate::runtime::{
    Runtime, RuntimeState, Shutdown, init_runtime, initialized, shutdown_runtime,
};
use crate::text::{blank, concat2, is_blank};

verus! {

// ---------------------------------------------------------------------------
// Errors
// ---------------------------------------------------------------------------

/// What stops a call. `S` is the type of its texts.
#[derive(Debug, Clone)]
pub enum CoreError<S> {
    InvalidInput(S),
    DeviceNotFound(S),
    DaemonNotRunning(S),
    Operation(S),
    Runtime(S),
}

/// What a call comes to.
pub type CoreResult<T> = Result<T, CoreError<String>>;

impl View for CoreError<String> {
    type V = CoreError<Seq<char>>;

    open spec fn view(&self) -> CoreError<Seq<char>> {
        match self {
            CoreError::InvalidInput(m) => CoreError::InvalidInput(m@),
            CoreError::DeviceNotFound(m) => CoreError::DeviceNotFound(m@),
            CoreError::DaemonNotRunning(m) => CoreError::DaemonNotRunning(m@),
            CoreError::Operation(m) => CoreError::Operation(m@),
            CoreError::Runtime(m) => CoreError::Runtime(m@),
        }
    }
}

impl CoreError<Seq<char>> {
    /// The error in words.
    pub open spec fn words(self) -> Seq<char> {
        match self {
            CoreError::InvalidInput(m) => "invalid input: "@ + m,
            CoreError::DeviceNotFound(m) => "device not found: "@ + m,
            CoreError::DaemonNotRunning(m) => "daemon not running: "@ + m,
            CoreError::Operation(m) => "operation failed: "@ + m,
            CoreError::Runtime(m) => "runtime error: "@ + m,
        }
    }
}

impl CoreError<String> {
    /// The error in words.
    pub fn to_string(&self) -> (s: String)
        ensures
            s@ == self@.words(),
    {
        match self {
            CoreError::InvalidInput(m) => concat2("invalid input: ", m.as_str()),
            CoreError::DeviceNotFound(m) => concat2("device not found: ", m.as_str()),
            CoreError::DaemonNotRunning(m) => concat2("daemon not running: ", m.as_str()),
            CoreError::Operation(m) => concat2("operation failed: ", m.as_str()),
            CoreError::Runtime(m) => concat2("runtime error: ", m.as_str()),
        }
    }

    /// An operation that failed, for the given reason.
    pub fn operation(reason: &str) -> (e: CoreError<String>)
        ensures
            e@ == CoreError::Operation(reason@),
    {
        CoreError::Operation(reason.to_string())
    }
}

/// What a connection's failure is to the caller.
pub open spec fn connect_error(
    e: ConnectError<Seq<char>>,
    serial: Seq<char>,
) -> CoreError<Seq<char>> {
    match e {
        ConnectError::DevicesUnlisted(m) => CoreError::Operation(m),
        ConnectError::DeviceNotFound => CoreError::DeviceNotFound(serial),
        ConnectError::DeployFailed(m) => CoreError::Operation(m),
        ConnectError::NotAlive => CoreError::DaemonNotRunning(
            "realtime_profile did not stay alive"@,
        ),
        ConnectError::ForwardFailed(m) => CoreError::Operation(m),
        ConnectError::SyncForwardFailed(m) => CoreError::Operation(m),
        ConnectError::PortOverflow => CoreError::InvalidInput("sync control port overflow"@),
        ConnectError::LazyFailed(m) => CoreError::Operation(m),
        ConnectError::DaemonUnreachable(m) => CoreError::DaemonNotRunning(m),
    }
}

/// What a connection that has ended is to the caller.
pub fn connect_outcome(end: ConnectEnd<String>, serial: &str) -> (r: CoreResult<()>)
    ensures
        match end@ {
            ConnectEnd::Connected => r is Ok,
            ConnectEnd::Failed(e) => fails_with(r, connect_error(e, serial@)),
        },
{
    match end {
        ConnectEnd::Connected => Ok(()),
        ConnectEnd::Failed(e) => Err(
            match e {
                ConnectError::DevicesUnlisted(m) => CoreError::Operation(m),
                ConnectError::DeviceNotFound => CoreError::DeviceNotFound(serial.to_string()),
                ConnectError::DeployFailed(m) => CoreError::Operation(m),
                ConnectError::NotAlive => CoreError::DaemonNotRunning(
                    "realtime_profile did not stay alive".to_string(),
                ),
                ConnectError::ForwardFailed(m) => CoreError::Operation(m),
                ConnectError::SyncForwardFailed(m) => CoreError::Operation(m),
                ConnectError::PortOverflow => CoreError::InvalidInput(
                    "sync control port overflow".to_string(),
                ),
                ConnectError::LazyFailed(m) => CoreError::Operation(m),
                ConnectError::DaemonUnreachable(m) => CoreError::DaemonNotRunning(m),
            },
        ),
    }
}

// ---------------------------------------------------------------------------
// Checks
// ---------------------------------------------------------------------------

/// What is wrong with an argument that must be given: that it is blank.
pub open spec fn required(field: Seq<char>, value: Seq<char>) -> Option<CoreError<Seq<char>>> {
    if blank(value) {
        Some(CoreError::InvalidInput(field + " is required"@))
    } else {
        None
    }
}

/// What is wrong with a port: that it is zero.
pub open spec fn port_fault(port: u16) -> Option<CoreError<Seq<char>>> {
    if port == 0 {
        Some(CoreError::InvalidInput("port must be greater than zero"@))
    } else {
        None
    }
}

/// What is wrong with a length of time: that it is no finite number above zero.
pub open spec fn interval_fault(field: Seq<char>, value: Double) -> Option<CoreError<Seq<char>>> {
    if value.finite_positive() {
        None
    } else {
        Some(CoreError::InvalidInput(field + " must be greater than zero"@))
    }
}

/// What is wrong with a count: that it is not above zero.
pub open spec fn count_fault(field: Seq<char>, value: i32) -> Option<CoreError<Seq<char>>> {
    if value > 0 {
        None
    } else {
        Some(CoreError::InvalidInput(field + " must be greater than zero"@))
    }
}

/// The first of two faults.
pub open spec fn first(
    a: Option<CoreError<Seq<char>>>,
    b: Option<CoreError<Seq<char>>>,
) -> Option<CoreError<Seq<char>>> {
    if a is Some {
        a
    } else {
        b
    }
}

/// Whether a call fails with the given error.
pub open spec fn fails_with<T>(r: CoreResult<T>, e: CoreError<Seq<char>>) -> bool {
    r matches Err(f) && f@ == e
}

/// Whether a check found the fault that it is there to find.
pub open spec fn found(r: CoreResult<()>, fault: Option<CoreError<Seq<char>>>) -> bool {
    match fault {
        Some(e) => fails_with(r, e),
        None => r is Ok,
    }
}

fn validate_non_empty(field: &str, value: &str) -> (r: CoreResult<()>)
    ensures
        found(r, required(field@, value@)),
{
    if is_blank(value) {
        Err(CoreError::InvalidInput(concat2(field, " is required")))
    } else {
        Ok(())
    }
}

fn validate_port(port: u16) -> (r: CoreResult<()>)
    ensures
        found(r, port_fault(port)),
{
    if port == 0 {
        Err(CoreError::InvalidInput("port must be greater than zero".to_string()))
    } else {
        Ok(())
    }
}

fn validate_positive_double(field: &str, value: Double) -> (r: CoreResult<()>)
    ensures
        found(r, interval_fault(field@, value)),
{
    if value.is_finite_positive() {
        Ok(())
    } else {
        Err(CoreError::InvalidInput(concat2(field, " must be greater than zero")))
    }
}

fn validate_positive_i32(field: &str, value: i32) -> (r: CoreResult<()>)
    ensures
        found(r, count_fault(field@, value)),
{
    if value > 0 {
        Ok(())
    } else {
        Err(CoreError::InvalidInput(concat2(field, " must be greater than zero")))
    }
}

fn copy_i32(v: &[i32]) -> (r: Vec<i32>)
    ensures
        r@ == v@,
{
    let mut r: Vec<i32> = Vec::new();
    let mut i: usize = 0;
    while i < v.len()
        invariant
            i <= v@.len(),
            r@ == v@.take(i as int),
        decreases v.len() - i,
    {
        r.push(v[i]);
        assert(v@.take(i as int + 1) =~= v@.take(i as int).push(v@[i as int]));
        i += 1;
    }
    assert(v@.take(v@.len() as int) =~= v@);
    r
}

fn copy_u32(v: &[u32]) -> (r: Vec<u32>)
    ensures
        r@ == v@,
{
    let mut r: Vec<u32> = Vec::new();
    let mut i: usize = 0;
    while i < v.len()
        invariant
            i <= v@.len(),
            r@ == v@.take(i as int),
        decreases v.len() - i,
    {
        r.push(v[i]);
        assert(v@.take(i as int + 1) =~= v@.take(i as int).push(v@[i as int]));
        i += 1;
    }
    assert(v@.take(v@.len() as int) =~= v@);
    r
}

// ---------------------------------------------------------------------------
// Calls
// ---------------------------------------------------------------------------

/// How the runtime came up.
#[derive(Debug, Clone, Copy, PartialEq, Eq, Structural)]
pub struct RuntimeStatus {
    pub freshly_initialized: bool,
    pub runtime_ready: bool,
}

/// The daemon's version and status.
#[derive(Debug, Clone, PartialEq, Eq)]
pub struct HealthInfo {
    pub version: String,
    pub status: String,
}

/// A request to be sent over the connection of a device.
#[derive(Debug)]
pub struct ClientCall {
    pub serial: String,
    pub call: Call,
}

/// Where a health check goes: over the control protocol first, where the
/// connection has it, and else over the service.
#[derive(Debug)]
pub struct HealthRoute {
    pub serial: String,
    pub sync_addr: Option<String>,
}

/// The commands that move a device to the network, in order. Whether the
/// first one succeeds does not matter.
#[derive(Debug)]
pub struct WifiConnect {
    pub disconnect: AdbCommand<String>,
    pub listen: AdbCommand<String>,
    pub connect: AdbCommand<String>,
}

/// Whether a device is connected.
pub open spec fn is_linked<C, H>(rt: Runtime<C, H>, serial: Seq<char>) -> bool {
    rt.state matches Some(s) && s.connections@.contains_key(serial)
}

/// What a call over a device's connection comes to: the fault of its
/// arguments, before anything else happens; or, once the runtime is there,
/// the request, or that the device has no connection.
pub open spec fn client_call<C, H>(
    before: Runtime<C, H>,
    after: Runtime<C, H>,
    serial: Seq<char>,
    fault: Option<CoreError<Seq<char>>>,
    call: CallModel,
    r: CoreResult<ClientCall>,
) -> bool {
    match fault {
        Some(e) => after == before && fails_with(r, e),
        None => {
            &&& initialized(before, before.state is None, after)
            &&& if is_linked(before, serial) {
                r matches Ok(c) && c.serial@ == serial && c.call@ == call
            } else {
                fails_with(r, CoreError::DeviceNotFound(serial))
            }
        },
    }
}

/// What a command of `adb` comes to: the fault of its arguments, or the
/// command.
pub open spec fn adb_call(
    fault: Option<CoreError<Seq<char>>>,
    command: AdbCommand<Seq<char>>,
    r: CoreResult<AdbCommand<String>>,
) -> bool {
    match fault {
        Some(e) => fails_with(r, e),
        None => r matches Ok(c) && c@ == command,
    }
}

fn connected_call<C, H>(rt: &mut Runtime<C, H>, serial: &str, call: Call) -> (r: CoreResult<
    ClientCall,
>)
    requires
        old(rt).wf(),
    ensures
        final(rt).wf(),
        client_call(*old(rt), *final(rt), serial@, None, call@, r),
{
    let _ = init_runtime(rt);
    let linked = match &rt.state {
        Some(s) => s.connections.contains_key(serial),
        None => false,
    };
    if linked {
        Ok(ClientCall { serial: serial.to_string(), call })
    } else {
        Err(CoreError::DeviceNotFound(serial.to_string()))
    }
}

/// The interface for applications.
pub struct CoreApi;

impl CoreApi {
    /// Sets the runtime up, unless it already is.
    pub fn initialize<C, H>(rt: &mut Runtime<C, H>) -> (r: CoreResult<RuntimeStatus>)
        requires
            old(rt).wf(),
        ensures
            final(rt).wf(),
            initialized(*old(rt), old(rt).state is None, *final(rt)),
            r == Ok::<RuntimeStatus, CoreError<String>>(
                (RuntimeStatus { freshly_initialized: old(rt).state is None, runtime_ready: true }),
            ),
    {
        let freshly_initialized = init_runtime(rt);
        let runtime_ready = rt.state.is_some();
        if runtime_ready {
            Ok(RuntimeStatus { freshly_initialized, runtime_ready })
        } else {
            Err(CoreError::Runtime("profiler-core runtime was not initialized".to_string()))
        }
    }

    /// Forgets every stream and every connection, and hands them back.
    pub fn shutdown<C, H>(rt: &mut Runtime<C, H>) -> (r: Option<Shutdown<C, H>>)
        requires
            old(rt).wf(),
        ensures
            final(rt).wf(),
            crate::runtime::shut_down(*old(rt), *final(rt), r),
    {
        shutdown_runtime(rt)
    }

    /// Lists the devices.
    pub fn list_devices() -> (c: AdbCommand<String>)
        ensures
            c@ == AdbCommand::<Seq<char>>::Devices,
    {
        get_devices()
    }

    /// Runs a shell command on a device.
    pub fn adb_shell(serial: &str, command: &str) -> (r: CoreResult<AdbCommand<String>>)
        ensures
            adb_call(
                first(required("serial"@, serial@), required("command"@, command@)),
                (AdbCommand::Shell { serial: serial@, command: command@ }),
                r,
            ),
    {
        if let Err(e) = validate_non_empty("serial", serial) {
            return Err(e);
        }
        if let Err(e) = validate_non_empty("command", command) {
            return Err(e);
        }
        Ok(shell(serial, command))
    }

    /// Copies a file to a device.
    pub fn adb_push(serial: &str, local: &str, remote: &str) -> (r: CoreResult<AdbCommand<String>>)
        ensures
            adb_call(
                first(
                    required("serial"@, serial@),
                    first(required("local path"@, local@), required("remote path"@, remote@)),
                ),
                (AdbCommand::Push { serial: serial@, local: local@, remote: remote@ }),
                r,
            ),
    {
        if let Err(e) = validate_non_empty("serial", serial) {
            return Err(e);
        }
        if let Err(e) = validate_non_empty("local path", local) {
            return Err(e);
        }
        if let Err(e) = validate_non_empty("remote path", remote) {
            return Err(e);
        }
        Ok(push(serial, local, remote))
    }

    /// Copies a file from a device.
    pub fn adb_pull(serial: &str, remote: &str, local: &str) -> (r: CoreResult<AdbCommand<String>>)
        ensures
            adb_call(
                first(
                    required("serial"@, serial@),
                    first(required("remote path"@, remote@), required("local path"@, local@)),
                ),
                (AdbCommand::Pull { serial: serial@, remote: remote@, local: local@ }),
                r,
            ),
    {
        if let Err(e) = validate_non_empty("serial", serial) {
            return Err(e);
        }
        if let Err(e) = validate_non_empty("remote path", remote) {
            return Err(e);
        }
        if let Err(e) = validate_non_empty("local path", local) {
            return Err(e);
        }
        Ok(pull(serial, remote, local))
    }

    /// Asks for a root shell.
    pub fn adb_root(serial: &str) -> (r: CoreResult<AdbCommand<String>>)
        ensures
            adb_call(
                required("serial"@, serial@),
                (AdbCommand::Root { serial: serial@ }),
                r,
            ),
    {
        if let Err(e) = validate_non_empty("serial", serial) {
            return Err(e);
        }
        Ok(root(serial))
    }

    /// Makes the device's system partitions writable.
    pub fn adb_remount(serial: &str) -> (r: CoreResult<AdbCommand<String>>)
        ensures
            adb_call(
                required("serial"@, serial@),
                (AdbCommand::Remount { serial: serial@ }),
                r,
            ),
    {
        if let Err(e) = validate_non_empty("serial", serial) {
            return Err(e);
        }
        Ok(remount(serial))
    }

    /// Disconnects a device that is connected over the network.
    pub fn wifi_adb_disconnect(serial: &str) -> (r: CoreResult<AdbCommand<String>>)
        ensures
            adb_call(
                required("serial"@, serial@),
                (AdbCommand::Disconnect { serial: serial@ }),
                r,
            ),
    {
        if let Err(e) = validate_non_empty("serial", serial) {
            return Err(e);
        }
        Ok(disconnect(serial))
    }

    /// Moves a device to the network: it is told to listen on a port, and is
    /// then connected to under its address.
    pub fn wifi_adb_connect(
        serial: &str,
        device_ip: &str,
        port: u16,
    ) -> (r: CoreResult<WifiConnect>)
        ensures
            match first(
                required("serial"@, serial@),
                first(required("device ip"@, device_ip@), port_fault(port)),
            ) {
                Some(e) => fails_with(r, e),
                None => r matches Ok(w) && {
                    &&& w.disconnect@ == AdbCommand::<Seq<char>>::DisconnectAll
                    &&& w.listen@ == (AdbCommand::Tcpip { serial: serial@, port })
                    &&& w.connect@ == (AdbCommand::Connect { ip: device_ip@, port })
                },
            },
    {
        if let Err(e) = validate_non_empty("serial", serial) {
            return Err(e);
        }
        if let Err(e) = validate_non_empty("device ip", device_ip) {
            return Err(e);
        }
        if let Err(e) = validate_port(port) {
            return Err(e);
        }
        Ok(
            WifiConnect {
                disconnect: disconnect_all(),
                listen: tcpip(serial, port),
                connect: connect_device(device_ip, port),
            },
        )
    }

    /// Connects to the daemon of a device, which is running.
    pub fn connect<C, H>(rt: &mut Runtime<C, H>, serial: &str, port: u16) -> (r: CoreResult<
        ConnectPlan<String>,
    >)
        requires
            old(rt).wf(),
        ensures
            final(rt).wf(),
            match first(required("serial"@, serial@), port_fault(port)) {
                Some(e) => *final(rt) == *old(rt) && fails_with(r, e),
                None => initialized(*old(rt), old(rt).state is None, *final(rt)) && (r matches Ok(p)
                    && p@ == (ConnectPlan {
                    serial: serial@,
                    local_path: Seq::<char>::empty(),
                    remote_path: Seq::<char>::empty(),
                    port,
                    low_overhead: false,
                    deploy: false,
                    strict: true,
                })),
            },
    {
        if let Err(e) = validate_non_empty("serial", serial) {
            return Err(e);
        }
        if let Err(e) = validate_port(port) {
            return Err(e);
        }
        let _ = init_runtime(rt);
        Ok(
            ConnectPlan {
                serial: serial.to_string(),
                local_path: String::new(),
                remote_path: String::new(),
                port,
                low_overhead: false,
                deploy: false,
                strict: true,
            },
        )
    }

    /// Deploys the daemon to a device where needed, and connects to it.
    pub fn deploy_and_connect<C, H>(
        rt: &mut Runtime<C, H>,
        serial: &str,
        local_path: Option<&str>,
        remote_path: &str,
        port: u16,
        daemon_low_overhead: bool,
    ) -> (r: CoreResult<ConnectPlan<String>>)
        requires
            old(rt).wf(),
        ensures
            final(rt).wf(),
            match first(
                required("serial"@, serial@),
                first(required("remote path"@, remote_path@), port_fault(port)),
            ) {
                Some(e) => *final(rt) == *old(rt) && fails_with(r, e),
                None => initialized(*old(rt), old(rt).state is None, *final(rt)) && (r matches Ok(p)
                    && p@ == (ConnectPlan {
                    serial: serial@,
                    local_path: (match local_path {
                        Some(l) => l@,
                        None => Seq::<char>::empty(),
                    }),
                    remote_path: remote_path@,
                    port,
                    low_overhead: daemon_low_overhead,
                    deploy: true,
                    strict: true,
                })),
            },
    {
        if let Err(e) = validate_non_empty("serial", serial) {
            return Err(e);
        }
        if let Err(e) = validate_non_empty("remote path", remote_path) {
            return Err(e);
        }
        if let Err(e) = validate_port(port) {
            return Err(e);
        }
        let _ = init_runtime(rt);
        let local = match local_path {
            Some(l) => l.to_string(),
            None => String::new(),
        };
        Ok(
            ConnectPlan {
                serial: serial.to_string(),
                local_path: local,
                remote_path: remote_path.to_string(),
                port,
                low_overhead: daemon_low_overhead,
                deploy: true,
                strict: true,
            },
        )
    }

    /// Drops the connection of a device.
    pub fn disconnect<C, H>(rt: &mut Runtime<C, H>, serial: &str) -> (r: CoreResult<()>)
        requires
            old(rt).wf(),
        ensures
            final(rt).wf(),
            match required("serial"@, serial@) {
                Some(e) => *final(rt) == *old(rt) && fails_with(r, e),
                None => {
                    &&& final(rt).state is Some
                    &&& !is_linked(*final(rt), serial@)
                    &&& if is_linked(*old(rt), serial@) {
                        &&& r is Ok
                        &&& final(rt).state->Some_0.connections@
                            == old(rt).state->Some_0.connections@.remove(serial@)
                        &&& old(rt).state->Some_0.same_but_connections(final(rt).state->Some_0)
                    } else {
                        &&& fails_with(r, CoreError::DeviceNotFound(serial@))
                        &&& old(rt).state matches Some(s) ==> s.connections@
                            == final(rt).state->Some_0.connections@ && s.same_but_connections(
                            final(rt).state->Some_0,
                        )
                        &&& old(rt).state is None ==> final(rt).state->Some_0.fresh()
                    }
                },
            },
    {
        if let Err(e) = validate_non_empty("serial", serial) {
            return Err(e);
        }
        let _ = init_runtime(rt);
        let mut taken: Option<RuntimeState<C, H>> = None;
        std::mem::swap(&mut taken, &mut rt.state);
        match taken {
            Some(mut state) => {
                let ghost before = state;
                let removed = state.connections.remove(serial);
                proof {
                    assert(before.same_but_connections(state));
                    if !before.connections@.contains_key(serial@) {
                        assert(before.connections@.remove(serial@) =~= before.connections@);
                    }
                }
                rt.state = Some(state);
                match removed {
                    Some(_) => Ok(()),
                    None => Err(CoreError::DeviceNotFound(serial.to_string())),
                }
            },
            None => Err(CoreError::DeviceNotFound(serial.to_string())),
        }
    }

    /// Whether a device is connected.
    pub fn is_connected<C, H>(rt: &mut Runtime<C, H>, serial: &str) -> (r: CoreResult<bool>)
        requires
            old(rt).wf(),
        ensures
            final(rt).wf(),
            match required("serial"@, serial@) {
                Some(e) => *final(rt) == *old(rt) && fails_with(r, e),
                None => initialized(*old(rt), old(rt).state is None, *final(rt)) && (r matches Ok(b)
                    && b == is_linked(*old(rt), serial@)),
            },
    {
        if let Err(e) = validate_non_empty("serial", serial) {
            return Err(e);
        }
        let _ = init_runtime(rt);
        match &rt.state {
            Some(s) => Ok(s.connections.contains_key(serial)),
            None => Ok(false),
        }
    }

    /// Asks for the daemon's version and status.
    pub fn health_check<C, H>(rt: &mut Runtime<C, H>, serial: &str) -> (r: CoreResult<HealthRoute>)
        requires
            old(rt).wf(),
        ensures
            final(rt).wf(),
            match required("serial"@, serial@) {
                Some(e) => *final(rt) == *old(rt) && fails_with(r, e),
                None => initialized(*old(rt), old(rt).state is None, *final(rt)) && if is_linked(
                    *old(rt),
                    serial@,
                ) {
                    let entry = old(rt).state->Some_0.connections@[serial@];
                    r matches Ok(h) && h.serial@ == serial@ && match control_addr_of(
                        entry.daemon_low_overhead,
                        entry.port,
                    ) {
                        Some(a) => h.sync_addr matches Some(s) && s@ == a,
                        None => h.sync_addr is None,
                    }
                } else {
                    fails_with(r, CoreError::DeviceNotFound(serial@))
                },
            },
    {
        if let Err(e) = validate_non_empty("serial", serial) {
            return Err(e);
        }
        let _ = init_runtime(rt);
        match &rt.state {
            Some(s) => match s.connections.get(serial) {
                Some(entry) => Ok(
                    HealthRoute {
                        serial: serial.to_string(),
                        sync_addr: sync_control_addr(entry),
                    },
                ),
                None => Err(CoreError::DeviceNotFound(serial.to_string())),
            },
            None => Err(CoreError::DeviceNotFound(serial.to_string())),
        }
    }

    /// Asks for the app in the foreground.
    pub fn top_app<C, H>(rt: &mut Runtime<C, H>, serial: &str) -> (r: CoreResult<ClientCall>)
        requires
            old(rt).wf(),
        ensures
            final(rt).wf(),
            client_call(
                *old(rt),
                *final(rt),
                serial@,
                required("serial"@, serial@),
                Request::GetTopApp,
                r,
            ),
    {
        if let Err(e) = validate_non_empty("serial", serial) {
            return Err(e);
        }
        connected_call(rt, serial, Request::GetTopApp)
    }

    /// Asks for the process of a package.
    pub fn get_pid<C, H>(
        rt: &mut Runtime<C, H>,
        serial: &str,
        package_name: &str,
    ) -> (r: CoreResult<ClientCall>)
        requires
            old(rt).wf(),
        ensures
            final(rt).wf(),
            client_call(
                *old(rt),
                *final(rt),
                serial@,
                first(required("serial"@, serial@), required("package name"@, package_name@)),
                (Request::GetPid { package_name: package_name@ }),
                r,
            ),
    {
        if let Err(e) = validate_non_empty("serial", serial) {
            return Err(e);
        }
        if let Err(e) = validate_non_empty("package name", package_name) {
            return Err(e);
        }
        connected_call(rt, serial, Request::GetPid { package_name: package_name.to_string() })
    }

    /// Asks for the installed packages.
    pub fn list_packages<C, H>(
        rt: &mut Runtime<C, H>,
        serial: &str,
        third_party_only: bool,
    ) -> (r: CoreResult<ClientCall>)
        requires
            old(rt).wf(),
        ensures
            final(rt).wf(),
            client_call(
                *old(rt),
                *final(rt),
                serial@,
                required("serial"@, serial@),
                (Request::ListPackages { third_party_only }),
                r,
            ),
    {
        if let Err(e) = validate_non_empty("serial", serial) {
            return Err(e);
        }
        connected_call(rt, serial, Request::ListPackages { third_party_only })
    }

    /// Asks for the details of a package.
    pub fn get_package_info<C, H>(
        rt: &mut Runtime<C, H>,
        serial: &str,
        package_name: &str,
    ) -> (r: CoreResult<ClientCall>)
        requires
            old(rt).wf(),
        ensures
            final(rt).wf(),
            client_call(
                *old(rt),
                *final(rt),
                serial@,
                first(required("serial"@, serial@), required("package name"@, package_name@)),
                (Request::GetPackageInfo { package_name: package_name@ }),
                r,
            ),
    {
        if let Err(e) = validate_non_empty("serial", serial) {
            return Err(e);
        }
        if let Err(e) = validate_non_empty("package name", package_name) {
            return Err(e);
        }
        connected_call(
            rt,
            serial,
            Request::GetPackageInfo { package_name: package_name.to_string() },
        )
    }

    /// Starts an app.
    pub fn launch_app<C, H>(
        rt: &mut Runtime<C, H>,
        serial: &str,
        package_name: &str,
    ) -> (r: CoreResult<ClientCall>)
        requires
            old(rt).wf(),
        ensures
            final(rt).wf(),
            client_call(
                *old(rt),
                *final(rt),
                serial@,
                first(required("serial"@, serial@), required("package name"@, package_name@)),
                (Request::LaunchApp { package_name: package_name@ }),
                r,
            ),
    {
        if let Err(e) = validate_non_empty("serial", serial) {
            return Err(e);
        }
        if let Err(e) = validate_non_empty("package name", package_name) {
            return Err(e);
        }
        connected_call(rt, serial, Request::LaunchApp { package_name: package_name.to_string() })
    }

    /// Stops an app.
    pub fn stop_app<C, H>(
        rt: &mut Runtime<C, H>,
        serial: &str,
        package_name: &str,
    ) -> (r: CoreResult<ClientCall>)
        requires
            old(rt).wf(),
        ensures
            final(rt).wf(),
            client_call(
                *old(rt),
                *final(rt),
                serial@,
                first(required("serial"@, serial@), required("package name"@, package_name@)),
                (Request::StopApp { package_name: package_name@ }),
                r,
            ),
    {
        if let Err(e) = validate_non_empty("serial", serial) {
            return Err(e);
        }
        if let Err(e) = validate_non_empty("package name", package_name) {
            return Err(e);
        }
        connected_call(rt, serial, Request::StopApp { package_name: package_name.to_string() })
    }

    /// Installs a package file that is on the device.
    pub fn install_apk<C, H>(
        rt: &mut Runtime<C, H>,
        serial: &str,
        remote_apk_path: &str,
    ) -> (r: CoreResult<ClientCall>)
        requires
            old(rt).wf(),
        ensures
            final(rt).wf(),
            client_call(
                *old(rt),
                *final(rt),
                serial@,
                first(required("serial"@, serial@), required("remote apk path"@, remote_apk_path@)),
                (Request::InstallApk { remote_apk_path: remote_apk_path@ }),
                r,
            ),
    {
        if let Err(e) = validate_non_empty("serial", serial) {
            return Err(e);
        }
        if let Err(e) = validate_non_empty("remote apk path", remote_apk_path) {
            return Err(e);
        }
        connected_call(
            rt,
            serial,
            Request::InstallApk { remote_apk_path: remote_apk_path.to_string() },
        )
    }

    /// Runs a shell command through the daemon.
    pub fn daemon_shell<C, H>(
        rt: &mut Runtime<C, H>,
        serial: &str,
        command: &str,
    ) -> (r: CoreResult<ClientCall>)
        requires
            old(rt).wf(),
        ensures
            final(rt).wf(),
            client_call(
                *old(rt),
                *final(rt),
                serial@,
                first(required("serial"@, serial@), required("command"@, command@)),
                (Request::Shell { command: command@ }),
                r,
            ),
    {
        if let Err(e) = validate_non_empty("serial", serial) {
            return Err(e);
        }
        if let Err(e) = validate_non_empty("command", command) {
            return Err(e);
        }
        connected_call(rt, serial, Request::Shell { command: command.to_string() })
    }

    /// Sets the identifier that the device keeps.
    pub fn set_device_id<C, H>(
        rt: &mut Runtime<C, H>,
        serial: &str,
        device_id: &str,
    ) -> (r: CoreResult<ClientCall>)
        requires
            old(rt).wf(),
        ensures
            final(rt).wf(),
            client_call(
                *old(rt),
                *final(rt),
                serial@,
                first(required("serial"@, serial@), required("device id"@, device_id@)),
                (Request::SetDeviceId { device_id: device_id@ }),
                r,
            ),
    {
        if let Err(e) = validate_non_empty("serial", serial) {
            return Err(e);
        }
        if let Err(e) = validate_non_empty("device id", device_id) {
            return Err(e);
        }
        connected_call(rt, serial, Request::SetDeviceId { device_id: device_id.to_string() })
    }

    /// Asks for the size of the screen.
    pub fn screen_size<C, H>(rt: &mut Runtime<C, H>, serial: &str) -> (r: CoreResult<ClientCall>)
        requires
            old(rt).wf(),
        ensures
            final(rt).wf(),
            client_call(
                *old(rt),
                *final(rt),
                serial@,
                required("serial"@, serial@),
                Request::GetScreenSize,
                r,
            ),
    {
        if let Err(e) = validate_non_empty("serial", serial) {
            return Err(e);
        }
        connected_call(rt, serial, Request::GetScreenSize)
    }

    /// Asks for a picture of the screen, to be written to a local file.
    pub fn screenshot<C, H>(
        rt: &mut Runtime<C, H>,
        serial: &str,
        quality: i32,
        local_path: &str,
    ) -> (r: CoreResult<ClientCall>)
        requires
            old(rt).wf(),
        ensures
            final(rt).wf(),
            client_call(
                *old(rt),
                *final(rt),
                serial@,
                first(required("serial"@, serial@), required("local path"@, local_path@)),
                (Request::Screenshot { quality }),
                r,
            ),
    {
        if let Err(e) = validate_non_empty("serial", serial) {
            return Err(e);
        }
        if let Err(e) = validate_non_empty("local path", local_path) {
            return Err(e);
        }
        connected_call(rt, serial, Request::Screenshot { quality })
    }

    /// Taps a point of the screen.
    pub fn input_tap<C, H>(
        rt: &mut Runtime<C, H>,
        serial: &str,
        x: i32,
        y: i32,
    ) -> (r: CoreResult<ClientCall>)
        requires
            old(rt).wf(),
        ensures
            final(rt).wf(),
            client_call(
                *old(rt),
                *final(rt),
                serial@,
                required("serial"@, serial@),
                (Request::InputTap { x, y }),
                r,
            ),
    {
        if let Err(e) = validate_non_empty("serial", serial) {
            return Err(e);
        }
        connected_call(rt, serial, Request::InputTap { x, y })
    }

    /// Swipes from one point of the screen to another.
    pub fn input_swipe<C, H>(
        rt: &mut Runtime<C, H>,
        serial: &str,
        x1: i32,
        y1: i32,
        x2: i32,
        y2: i32,
        duration_ms: i32,
    ) -> (r: CoreResult<ClientCall>)
        requires
            old(rt).wf(),
        ensures
            final(rt).wf(),
            client_call(
                *old(rt),
                *final(rt),
                serial@,
                required("serial"@, serial@),
                (Request::InputSwipe { x1, y1, x2, y2, duration_ms }),
                r,
            ),
    {
        if let Err(e) = validate_non_empty("serial", serial) {
            return Err(e);
        }
        connected_call(rt, serial, Request::InputSwipe { x1, y1, x2, y2, duration_ms })
    }

    /// Types a text.
    pub fn input_text<C, H>(
        rt: &mut Runtime<C, H>,
        serial: &str,
        text: &str,
    ) -> (r: CoreResult<ClientCall>)
        requires
            old(rt).wf(),
        ensures
            final(rt).wf(),
            client_call(
                *old(rt),
                *final(rt),
                serial@,
                first(required("serial"@, serial@), required("text"@, text@)),
                (Request::InputText { text: text@ }),
                r,
            ),
    {
        if let Err(e) = validate_non_empty("serial", serial) {
            return Err(e);
        }
        if let Err(e) = validate_non_empty("text", text) {
            return Err(e);
        }
        connected_call(rt, serial, Request::InputText { text: text.to_string() })
    }

    /// Presses a key.
    pub fn input_key_event<C, H>(
        rt: &mut Runtime<C, H>,
        serial: &str,
        key_code: i32,
    ) -> (r: CoreResult<ClientCall>)
        requires
            old(rt).wf(),
        ensures
            final(rt).wf(),
            client_call(
                *old(rt),
                *final(rt),
                serial@,
                required("serial"@, serial@),
                (Request::InputKeyEvent { key_code }),
                r,
            ),
    {
        if let Err(e) = validate_non_empty("serial", serial) {
            return Err(e);
        }
        connected_call(rt, serial, Request::InputKeyEvent { key_code })
    }

    /// Asks for a device property.
    pub fn get_device_prop<C, H>(
        rt: &mut Runtime<C, H>,
        serial: &str,
        prop_name: &str,
    ) -> (r: CoreResult<ClientCall>)
        requires
            old(rt).wf(),
        ensures
            final(rt).wf(),
            client_call(
                *old(rt),
                *final(rt),
                serial@,
                first(required("serial"@, serial@), required("property name"@, prop_name@)),
                (Request::GetDeviceProp { prop_name: prop_name@ }),
                r,
            ),
    {
        if let Err(e) = validate_non_empty("serial", serial) {
            return Err(e);
        }
        if let Err(e) = validate_non_empty("property name", prop_name) {
            return Err(e);
        }
        connected_call(rt, serial, Request::GetDeviceProp { prop_name: prop_name.to_string() })
    }

    /// Asks whether a path exists.
    pub fn path_exists<C, H>(
        rt: &mut Runtime<C, H>,
        serial: &str,
        path: &str,
    ) -> (r: CoreResult<ClientCall>)
        requires
            old(rt).wf(),
        ensures
            final(rt).wf(),
            client_call(
                *old(rt),
                *final(rt),
                serial@,
                first(required("serial"@, serial@), required("path"@, path@)),
                (Request::PathExists { path: path@ }),
                r,
            ),
    {
        if let Err(e) = validate_non_empty("serial", serial) {
            return Err(e);
        }
        if let Err(e) = validate_non_empty("path", path) {
            return Err(e);
        }
        connected_call(rt, serial, Request::PathExists { path: path.to_string() })
    }

    /// Asks for temperatures and the battery level.
    pub fn temperature<C, H>(rt: &mut Runtime<C, H>, serial: &str) -> (r: CoreResult<ClientCall>)
        requires
            old(rt).wf(),
        ensures
            final(rt).wf(),
            client_call(
                *old(rt),
                *final(rt),
                serial@,
                required("serial"@, serial@),
                Request::GetTemperature,
                r,
            ),
    {
        if let Err(e) = validate_non_empty("serial", serial) {
            return Err(e);
        }
        connected_call(rt, serial, Request::GetTemperature)
    }

    /// Switches charging on or off.
    pub fn set_charging<C, H>(
        rt: &mut Runtime<C, H>,
        serial: &str,
        enable: bool,
    ) -> (r: CoreResult<ClientCall>)
        requires
            old(rt).wf(),
        ensures
            final(rt).wf(),
            client_call(
                *old(rt),
                *final(rt),
                serial@,
                required("serial"@, serial@),
                (Request::SetCharging { enable }),
                r,
            ),
    {
        if let Err(e) = validate_non_empty("serial", serial) {
            return Err(e);
        }
        connected_call(rt, serial, Request::SetCharging { enable })
    }

    /// Removes a file.
    pub fn remove_file<C, H>(
        rt: &mut Runtime<C, H>,
        serial: &str,
        path: &str,
    ) -> (r: CoreResult<ClientCall>)
        requires
            old(rt).wf(),
        ensures
            final(rt).wf(),
            client_call(
                *old(rt),
                *final(rt),
                serial@,
                first(required("serial"@, serial@), required("path"@, path@)),
                (Request::RemoveFile { path: path@ }),
                r,
            ),
    {
        if let Err(e) = validate_non_empty("serial", serial) {
            return Err(e);
        }
        if let Err(e) = validate_non_empty("path", path) {
            return Err(e);
        }
        connected_call(rt, serial, Request::RemoveFile { path: path.to_string() })
    }

    /// Packs a target into an archive.
    pub fn create_archive<C, H>(
        rt: &mut Runtime<C, H>,
        serial: &str,
        working_directory: &str,
        target: &str,
        output_path: &str,
    ) -> (r: CoreResult<ClientCall>)
        requires
            old(rt).wf(),
        ensures
            final(rt).wf(),
            client_call(
                *old(rt),
                *final(rt),
                serial@,
                first(
                    required("serial"@, serial@),
                    first(
                        required("working directory"@, working_directory@),
                        first(required("target"@, target@), required("output path"@, output_path@)),
                    ),
                ),
                (
                    Request::CreateArchive {
                        working_directory: working_directory@,
                        target: target@,
                        output_path: output_path@,
                    }
                ),
                r,
            ),
    {
        if let Err(e) = validate_non_empty("serial", serial) {
            return Err(e);
        }
        if let Err(e) = validate_non_empty("working directory", working_directory) {
            return Err(e);
        }
        if let Err(e) = validate_non_empty("target", target) {
            return Err(e);
        }
        if let Err(e) = validate_non_empty("output path", output_path) {
            return Err(e);
        }
        connected_call(
            rt,
            serial,
            Request::CreateArchive {
                working_directory: working_directory.to_string(),
                target: target.to_string(),
                output_path: output_path.to_string(),
            },
        )
    }

    /// Unpacks an archive.
    pub fn extract_archive<C, H>(
        rt: &mut Runtime<C, H>,
        serial: &str,
        working_directory: &str,
        archive_path: &str,
    ) -> (r: CoreResult<ClientCall>)
        requires
            old(rt).wf(),
        ensures
            final(rt).wf(),
            client_call(
                *old(rt),
                *final(rt),
                serial@,
                first(
                    required("serial"@, serial@),
                    first(
                        required("working directory"@, working_directory@),
                        required("archive path"@, archive_path@),
                    ),
                ),
                (
                    Request::ExtractArchive {
                        working_directory: working_directory@,
                        archive_path: archive_path@,
                    }
                ),
                r,
            ),
    {
        if let Err(e) = validate_non_empty("serial", serial) {
            return Err(e);
        }
        if let Err(e) = validate_non_empty("working directory", working_directory) {
            return Err(e);
        }
        if let Err(e) = validate_non_empty("archive path", archive_path) {
            return Err(e);
        }
        connected_call(
            rt,
            serial,
            Request::ExtractArchive {
                working_directory: working_directory.to_string(),
                archive_path: archive_path.to_string(),
            },
        )
    }

    /// Changes the mode of a path.
    pub fn chmod<C, H>(
        rt: &mut Runtime<C, H>,
        serial: &str,
        path: &str,
        mode: &str,
        recursive: bool,
    ) -> (r: CoreResult<ClientCall>)
        requires
            old(rt).wf(),
        ensures
            final(rt).wf(),
            client_call(
                *old(rt),
                *final(rt),
                serial@,
                first(
                    required("serial"@, serial@),
                    first(required("path"@, path@), required("mode"@, mode@)),
                ),
                (Request::Chmod { path: path@, mode: mode@, recursive }),
                r,
            ),
    {
        if let Err(e) = validate_non_empty("serial", serial) {
            return Err(e);
        }
        if let Err(e) = validate_non_empty("path", path) {
            return Err(e);
        }
        if let Err(e) = validate_non_empty("mode", mode) {
            return Err(e);
        }
        connected_call(
            rt,
            serial,
            Request::Chmod { path: path.to_string(), mode: mode.to_string(), recursive },
        )
    }

    /// Changes the owner of a path.
    pub fn chown<C, H>(
        rt: &mut Runtime<C, H>,
        serial: &str,
        path: &str,
        uid: i32,
        gid: i32,
        recursive: bool,
    ) -> (r: CoreResult<ClientCall>)
        requires
            old(rt).wf(),
        ensures
            final(rt).wf(),
            client_call(
                *old(rt),
                *final(rt),
                serial@,
                first(required("serial"@, serial@), required("path"@, path@)),
                (Request::Chown { path: path@, uid, gid, recursive }),
                r,
            ),
    {
        if let Err(e) = validate_non_empty("serial", serial) {
            return Err(e);
        }
        if let Err(e) = validate_non_empty("path", path) {
            return Err(e);
        }
        connected_call(rt, serial, Request::Chown { path: path.to_string(), uid, gid, recursive })
    }

    /// Asks for the owner of a path.
    pub fn get_file_owner<C, H>(
        rt: &mut Runtime<C, H>,
        serial: &str,
        path: &str,
    ) -> (r: CoreResult<ClientCall>)
        requires
            old(rt).wf(),
        ensures
            final(rt).wf(),
            client_call(
                *old(rt),
                *final(rt),
                serial@,
                first(required("serial"@, serial@), required("path"@, path@)),
                (Request::GetFileOwner { path: path@ }),
                r,
            ),
    {
        if let Err(e) = validate_non_empty("serial", serial) {
            return Err(e);
        }
        if let Err(e) = validate_non_empty("path", path) {
            return Err(e);
        }
        connected_call(rt, serial, Request::GetFileOwner { path: path.to_string() })
    }

    /// Starts a stream of benchmark samples. An empty mode is the full one.
    pub fn start_rtb_stream<C, H>(
        rt: &mut Runtime<C, H>,
        serial: &str,
        pid: i32,
        interval_secs: Double,
        mode: &str,
        options: RtbStreamOptions,
    ) -> (r: CoreResult<ClientCall>)
        requires
            old(rt).wf(),
        ensures
            final(rt).wf(),
            client_call(
                *old(rt),
                *final(rt),
                serial@,
                first(
                    required("serial"@, serial@),
                    interval_fault("interval_secs"@, interval_secs),
                ),
                (Request::StartRtbStream { pid, interval_secs, mode: mode@, options }),
                r,
            ),
    {
        if let Err(e) = validate_non_empty("serial", serial) {
            return Err(e);
        }
        if let Err(e) = validate_positive_double("interval_secs", interval_secs) {
            return Err(e);
        }
        connected_call(
            rt,
            serial,
            Request::StartRtbStream { pid, interval_secs, mode: mode.to_string(), options },
        )
    }

    /// Starts a stream of cache reports.
    pub fn start_cr_stream<C, H>(
        rt: &mut Runtime<C, H>,
        serial: &str,
        interval_secs: Double,
        cpus: &[i32],
        exclude_kernel: bool,
        diff_kernel: bool,
        full_mode: bool,
        custom_events: &[u32],
    ) -> (r: CoreResult<ClientCall>)
        requires
            old(rt).wf(),
        ensures
            final(rt).wf(),
            client_call(
                *old(rt),
                *final(rt),
                serial@,
                first(
                    required("serial"@, serial@),
                    interval_fault("interval_secs"@, interval_secs),
                ),
                (
                    Request::StartCrStream {
                        interval_secs,
                        cpus: cpus@,
                        exclude_kernel,
                        diff_kernel,
                        full_mode,
                        custom_events: custom_events@,
                    }
                ),
                r,
            ),
    {
        if let Err(e) = validate_non_empty("serial", serial) {
            return Err(e);
        }
        if let Err(e) = validate_positive_double("interval_secs", interval_secs) {
            return Err(e);
        }
        connected_call(
            rt,
            serial,
            Request::StartCrStream {
                interval_secs,
                cpus: copy_i32(cpus),
                exclude_kernel,
                diff_kernel,
                full_mode,
                custom_events: copy_u32(custom_events),
            },
        )
    }

    /// Starts a stream of cache reports of threads.
    pub fn start_tc_stream<C, H>(
        rt: &mut Runtime<C, H>,
        serial: &str,
        pid: i32,
        interval_secs: Double,
        exclude_kernel: bool,
        diff_kernel: bool,
        top_threads_count: i32,
        full_mode: bool,
        custom_events: &[u32],
    ) -> (r: CoreResult<ClientCall>)
        requires
            old(rt).wf(),
        ensures
            final(rt).wf(),
            client_call(
                *old(rt),
                *final(rt),
                serial@,
                first(
                    required("serial"@, serial@),
                    interval_fault("interval_secs"@, interval_secs),
                ),
                (
                    Request::StartTcStream {
                        pid,
                        interval_secs,
                        exclude_kernel,
                        diff_kernel,
                        top_threads_count,
                        full_mode,
                        custom_events: custom_events@,
                    }
                ),
                r,
            ),
    {
        if let Err(e) = validate_non_empty("serial", serial) {
            return Err(e);
        }
        if let Err(e) = validate_positive_double("interval_secs", interval_secs) {
            return Err(e);
        }
        connected_call(
            rt,
            serial,
            Request::StartTcStream {
                pid,
                interval_secs,
                exclude_kernel,
                diff_kernel,
                top_threads_count,
                full_mode,
                custom_events: copy_u32(custom_events),
            },
        )
    }

    /// Starts a latency benchmark.
    pub fn start_cml_stream<C, H>(
        rt: &mut Runtime<C, H>,
        serial: &str,
        cpus: &[i32],
        max_footprint_kb: u32,
        min_footprint_kb: u32,
    ) -> (r: CoreResult<ClientCall>)
        requires
            old(rt).wf(),
        ensures
            final(rt).wf(),
            client_call(
                *old(rt),
                *final(rt),
                serial@,
                required("serial"@, serial@),
                (Request::StartCmlStream { cpus: cpus@, max_footprint_kb, min_footprint_kb }),
                r,
            ),
    {
        if let Err(e) = validate_non_empty("serial", serial) {
            return Err(e);
        }
        connected_call(
            rt,
            serial,
            Request::StartCmlStream { cpus: copy_i32(cpus), max_footprint_kb, min_footprint_kb },
        )
    }

    /// Starts a stream of GPU counters.
    pub fn start_gc_stream<C, H>(
        rt: &mut Runtime<C, H>,
        serial: &str,
        gpu_device_number: u32,
        interval_secs: Double,
        counter_ids: &[u32],
    ) -> (r: CoreResult<ClientCall>)
        requires
            old(rt).wf(),
        ensures
            final(rt).wf(),
            client_call(
                *old(rt),
                *final(rt),
                serial@,
                first(
                    required("serial"@, serial@),
                    interval_fault("interval_secs"@, interval_secs),
                ),
                (
                    Request::StartGcStream {
                        gpu_device_number,
                        interval_secs,
                        counter_ids: counter_ids@,
                    }
                ),
                r,
            ),
    {
        if let Err(e) = validate_non_empty("serial", serial) {
            return Err(e);
        }
        if let Err(e) = validate_positive_double("interval_secs", interval_secs) {
            return Err(e);
        }
        connected_call(
            rt,
            serial,
            Request::StartGcStream {
                gpu_device_number,
                interval_secs,
                counter_ids: copy_u32(counter_ids),
            },
        )
    }

    /// Starts a trace session.
    pub fn start_perfetto<C, H>(
        rt: &mut Runtime<C, H>,
        serial: &str,
        pid: i32,
        mode: &str,
        duration_secs: i32,
        config_pbtxt: &str,
    ) -> (r: CoreResult<ClientCall>)
        requires
            old(rt).wf(),
        ensures
            final(rt).wf(),
            client_call(
                *old(rt),
                *final(rt),
                serial@,
                first(
                    required("serial"@, serial@),
                    first(
                        required("mode"@, mode@),
                        first(
                            count_fault("duration_secs"@, duration_secs),
                            required("config pbtxt"@, config_pbtxt@),
                        ),
                    ),
                ),
                (
                    Request::StartPerfetto {
                        pid,
                        mode: mode@,
                        duration_secs,
                        config_pbtxt: config_pbtxt@,
                    }
                ),
                r,
            ),
    {
        if let Err(e) = validate_non_empty("serial", serial) {
            return Err(e);
        }
        if let Err(e) = validate_non_empty("mode", mode) {
            return Err(e);
        }
        if let Err(e) = validate_positive_i32("duration_secs", duration_secs) {
            return Err(e);
        }
        if let Err(e) = validate_non_empty("config pbtxt", config_pbtxt) {
            return Err(e);
        }
        connected_call(
            rt,
            serial,
            Request::StartPerfetto {
                pid,
                mode: mode.to_string(),
                duration_secs,
                config_pbtxt: config_pbtxt.to_string(),
            },
        )
    }

    /// Asks for the state of the trace session.
    pub fn perfetto_status<C, H>(
        rt: &mut Runtime<C, H>,
        serial: &str,
    ) -> (r: CoreResult<ClientCall>)
        requires
            old(rt).wf(),
        ensures
            final(rt).wf(),
            client_call(
                *old(rt),
                *final(rt),
                serial@,
                required("serial"@, serial@),
                Request::GetPerfettoStatus,
                r,
            ),
    {
        if let Err(e) = validate_non_empty("serial", serial) {
            return Err(e);
        }
        connected_call(rt, serial, Request::GetPerfettoStatus)
    }

    /// Asks for a file, to be written to a local one.
    pub fn pull_file<C, H>(
        rt: &mut Runtime<C, H>,
        serial: &str,
        remote_path: &str,
        local_path: &str,
    ) -> (r: CoreResult<ClientCall>)
        requires
            old(rt).wf(),
        ensures
            final(rt).wf(),
            client_call(
                *old(rt),
                *final(rt),
                serial@,
                first(
                    required("serial"@, serial@),
                    first(
                        required("remote path"@, remote_path@),
                        required("local path"@, local_path@),
                    ),
                ),
                (Request::PullFile { remote_path: remote_path@ }),
                r,
            ),
    {
        if let Err(e) = validate_non_empty("serial", serial) {
            return Err(e);
        }
        if let Err(e) = validate_non_empty("remote path", remote_path) {
            return Err(e);
        }
        if let Err(e) = validate_non_empty("local path", local_path) {
            return Err(e);
        }
        connected_call(rt, serial, Request::PullFile { remote_path: remote_path.to_string() })
    }

    /// Stops a recording session.
    pub fn stop_recording<C, H>(
        rt: &mut Runtime<C, H>,
        serial: &str,
        session_type: &str,
    ) -> (r: CoreResult<ClientCall>)
        requires
            old(rt).wf(),
        ensures
            final(rt).wf(),
            client_call(
                *old(rt),
                *final(rt),
                serial@,
                required("serial"@, serial@),
                (Request::StopRecording { session_type: session_type@ }),
                r,
            ),
    {
        if let Err(e) = validate_non_empty("serial", serial) {
            return Err(e);
        }
        connected_call(
            rt,
            serial,
            Request::StopRecording { session_type: session_type.to_string() },
        )
    }

    /// Asks for the summary of the last benchmark.
    pub fn rtb_summary<C, H>(rt: &mut Runtime<C, H>, serial: &str) -> (r: CoreResult<ClientCall>)
        requires
            old(rt).wf(),
        ensures
            final(rt).wf(),
            client_call(
                *old(rt),
                *final(rt),
                serial@,
                required("serial"@, serial@),
                Request::GetRtbSummary,
                r,
            ),
    {
        if let Err(e) = validate_non_empty("serial", serial) {
            return Err(e);
        }
        connected_call(rt, serial, Request::GetRtbSummary)
    }

    /// Asks for the kernel's trace events.
    pub fn discover_ftrace_events<C, H>(
        rt: &mut Runtime<C, H>,
        serial: &str,
    ) -> (r: CoreResult<ClientCall>)
        requires
            old(rt).wf(),
        ensures
            final(rt).wf(),
            client_call(
                *old(rt),
                *final(rt),
                serial@,
                required("serial"@, serial@),
                Request::DiscoverFtraceEvents,
                r,
            ),
    {
        if let Err(e) = validate_non_empty("serial", serial) {
            return Err(e);
        }
        connected_call(rt, serial, Request::DiscoverFtraceEvents)
    }

    /// Asks for the events that can be counted.
    pub fn discover_pmu_events<C, H>(
        rt: &mut Runtime<C, H>,
        serial: &str,
    ) -> (r: CoreResult<ClientCall>)
        requires
            old(rt).wf(),
        ensures
            final(rt).wf(),
            client_call(
                *old(rt),
                *final(rt),
                serial@,
                required("serial"@, serial@),
                Request::DiscoverPmuEvents,
                r,
            ),
    {
        if let Err(e) = validate_non_empty("serial", serial) {
            return Err(e);
        }
        connected_call(rt, serial, Request::DiscoverPmuEvents)
    }

    /// Asks how many hardware counters there are.
    pub fn pmu_hw_counters<C, H>(
        rt: &mut Runtime<C, H>,
        serial: &str,
    ) -> (r: CoreResult<ClientCall>)
        requires
            old(rt).wf(),
        ensures
            final(rt).wf(),
            client_call(
                *old(rt),
                *final(rt),
                serial@,
                required("serial"@, serial@),
                Request::GetPmuHwCounters,
                r,
            ),
    {
        if let Err(e) = validate_non_empty("serial", serial) {
            return Err(e);
        }
        connected_call(rt, serial, Request::GetPmuHwCounters)
    }

    /// Asks for the GPU's counters.
    pub fn discover_gpu_counters<C, H>(
        rt: &mut Runtime<C, H>,
        serial: &str,
    ) -> (r: CoreResult<ClientCall>)
        requires
            old(rt).wf(),
        ensures
            final(rt).wf(),
            client_call(
                *old(rt),
                *final(rt),
                serial@,
                required("serial"@, serial@),
                Request::DiscoverGpuCounters,
                r,
            ),
    {
        if let Err(e) = validate_non_empty("serial", serial) {
            return Err(e);
        }
        connected_call(rt, serial, Request::DiscoverGpuCounters)
    }
}

/// What a health check comes to, by what the control protocol answered, where
/// it was asked, and what the service answered, where the control protocol did
/// not. `None` says that nothing was asked.
pub fn health_outcome(
    over_control: Option<HealthInfo>,
    over_service: Result<HealthInfo, String>,
) -> (r: CoreResult<HealthInfo>)
    ensures
        match over_control {
            Some(h) => r == Ok::<HealthInfo, CoreError<String>>(h),
            None => match over_service {
                Ok(h) => r == Ok::<HealthInfo, CoreError<String>>(h),
                Err(m) => fails_with(r, CoreError::DaemonNotRunning(m@)),
            },
        },
{
    match over_control {
        Some(h) => Ok(h),
        None => match over_service {
            Ok(h) => Ok(h),
            Err(m) => Err(CoreError::DaemonNotRunning(m)),
        },
    }
}

} // verus!
