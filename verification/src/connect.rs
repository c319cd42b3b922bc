//! Connecting to the daemon of a device, step by step: each step names one
//! thing to be done, and what came of it leads to the next.
use vstd::prelude::*;
use crate::adb::commands::{AdbCommand, forward};
use crate::adb::daemon::{
    first_word, get_grpc_port, grpc_port, is_running, running, take_first_word,
};
use crate::adb::deploy::{cmdline_command, pidof};
use crate::number::{decimal, decimal_text};
use crate::runtime::ConnectionEntry;
use crate::text::{concat2, concat3};

verus! {

/// The port that a daemon listens on unless it is told otherwise.
pub const DAEMON_PORT: u16 = 50051;

/// What to connect to, and how. `S` is the type of its texts.
#[derive(Debug, Clone)]
pub struct ConnectPlan<S> {
    pub serial: S,
    pub local_path: S,
    pub remote_path: S,
    pub port: u16,
    pub low_overhead: bool,
    /// Whether the daemon is deployed first.
    pub deploy: bool,
    /// Whether the connection fails where its control port cannot be had.
    pub strict: bool,
}

impl View for ConnectPlan<String> {
    type V = ConnectPlan<Seq<char>>;

    open spec fn view(&self) -> ConnectPlan<Seq<char>> {
        ConnectPlan {
            serial: self.serial@,
            local_path: self.local_path@,
            remote_path: self.remote_path@,
            port: self.port,
            low_overhead: self.low_overhead,
            deploy: self.deploy,
            strict: self.strict,
        }
    }
}

/// What stops a connection.
#[derive(Debug, Clone)]
pub enum ConnectError<S> {
    /// The devices could not be listed.
    DevicesUnlisted(S),
    /// The device is not listed, or not ready.
    DeviceNotFound,
    /// The daemon could not be deployed.
    DeployFailed(S),
    /// The daemon did not stay alive.
    NotAlive,
    /// The daemon's port could not be forwarded.
    ForwardFailed(S),
    /// The control port could not be forwarded.
    SyncForwardFailed(S),
    /// There is no port behind the last one for the control protocol.
    PortOverflow,
    /// The client could not be made.
    LazyFailed(S),
    /// The daemon's service does not answer.
    DaemonUnreachable(S),
}

impl View for ConnectError<String> {
    type V = ConnectError<Seq<char>>;

    open spec fn view(&self) -> ConnectError<Seq<char>> {
        match self {
            ConnectError::DevicesUnlisted(m) => ConnectError::DevicesUnlisted(m@),
            ConnectError::DeviceNotFound => ConnectError::DeviceNotFound,
            ConnectError::DeployFailed(m) => ConnectError::DeployFailed(m@),
            ConnectError::NotAlive => ConnectError::NotAlive,
            ConnectError::ForwardFailed(m) => ConnectError::ForwardFailed(m@),
            ConnectError::SyncForwardFailed(m) => ConnectError::SyncForwardFailed(m@),
            ConnectError::PortOverflow => ConnectError::PortOverflow,
            ConnectError::LazyFailed(m) => ConnectError::LazyFailed(m@),
            ConnectError::DaemonUnreachable(m) => ConnectError::DaemonUnreachable(m@),
        }
    }
}

/// How a connection has ended.
#[derive(Debug)]
pub enum ConnectEnd<S> {
    /// It is there.
    Connected,
    /// It failed.
    Failed(ConnectError<S>),
}

impl View for ConnectEnd<String> {
    type V = ConnectEnd<Seq<char>>;

    open spec fn view(&self) -> ConnectEnd<Seq<char>> {
        match self {
            ConnectEnd::Connected => ConnectEnd::Connected,
            ConnectEnd::Failed(e) => ConnectEnd::Failed(e@),
        }
    }
}

/// Where a connection stands.
#[derive(Debug)]
pub enum ConnectState<S> {
    ListDevices,
    Deploy,
    CheckAlive,
    FindPid,
    ReadPort { pid: S },
    Forward { device_port: u16 },
    ForwardSync { device_port: u16 },
    SyncHealth,
    Lazy,
    Connect,
    Finished(ConnectEnd<S>),
}

impl View for ConnectState<String> {
    type V = ConnectState<Seq<char>>;

    open spec fn view(&self) -> ConnectState<Seq<char>> {
        match self {
            ConnectState::ListDevices => ConnectState::ListDevices,
            ConnectState::Deploy => ConnectState::Deploy,
            ConnectState::CheckAlive => ConnectState::CheckAlive,
            ConnectState::FindPid => ConnectState::FindPid,
            ConnectState::ReadPort { pid } => ConnectState::ReadPort { pid: pid@ },
            ConnectState::Forward { device_port } => ConnectState::Forward {
                device_port: *device_port,
            },
            ConnectState::ForwardSync { device_port } => ConnectState::ForwardSync {
                device_port: *device_port,
            },
            ConnectState::SyncHealth => ConnectState::SyncHealth,
            ConnectState::Lazy => ConnectState::Lazy,
            ConnectState::Connect => ConnectState::Connect,
            ConnectState::Finished(e) => ConnectState::Finished(e@),
        }
    }
}

/// What is to be done next.
#[derive(Debug)]
pub enum ConnectAction<S> {
    /// List the devices, and see whether this one is among them and ready.
    ListDevices,
    /// Make sure that the daemon runs as root.
    Deploy,
    /// Run a shell command on the device.
    Shell(S),
    /// Run a command of `adb`.
    Adb(AdbCommand<S>),
    /// Ask for the daemon's health over the control protocol.
    SyncHealth { addr: S },
    /// Make a client that connects when it is first used.
    ConnectLazy { addr: S },
    /// Connect a client.
    Connect { addr: S },
    /// The connection is there, or has failed.
    Finish(ConnectEnd<S>),
}

impl View for ConnectAction<String> {
    type V = ConnectAction<Seq<char>>;

    open spec fn view(&self) -> ConnectAction<Seq<char>> {
        match self {
            ConnectAction::ListDevices => ConnectAction::ListDevices,
            ConnectAction::Deploy => ConnectAction::Deploy,
            ConnectAction::Shell(c) => ConnectAction::Shell(c@),
            ConnectAction::Adb(c) => ConnectAction::Adb(c@),
            ConnectAction::SyncHealth { addr } => ConnectAction::SyncHealth { addr: addr@ },
            ConnectAction::ConnectLazy { addr } => ConnectAction::ConnectLazy { addr: addr@ },
            ConnectAction::Connect { addr } => ConnectAction::Connect { addr: addr@ },
            ConnectAction::Finish(e) => ConnectAction::Finish(e@),
        }
    }
}

/// What came of an action: whether it was done, the text that it printed or
/// that says why not, and, for a list of devices, whether this one is there.
#[derive(Debug, Clone)]
pub struct ConnectEvent<S> {
    pub ok: bool,
    pub text: S,
    pub present: bool,
}

impl View for ConnectEvent<String> {
    type V = ConnectEvent<Seq<char>>;

    open spec fn view(&self) -> ConnectEvent<Seq<char>> {
        ConnectEvent { ok: self.ok, text: self.text@, present: self.present }
    }
}

/// The address of the daemon's service behind a local port.
pub open spec fn service_addr(port: u16) -> Seq<char> {
    "http://127.0.0.1:"@ + decimal(port as nat)
}

/// The address of the control protocol, which has the port behind that of the
/// service; there is none behind the last port.
pub open spec fn control_addr(port: u16) -> Option<Seq<char>> {
    if port < u16::MAX {
        Some("127.0.0.1:"@ + decimal((port + 1) as nat))
    } else {
        None
    }
}

/// The address of the daemon's service behind a local port.
pub fn service_address(port: u16) -> (s: String)
    ensures
        s@ == service_addr(port),
{
    concat2("http://127.0.0.1:", decimal_text(port as u64).as_str())
}

/// The address of the control protocol, where there is a port for it.
pub fn sync_control_addr_for_port(port: u16) -> (r: Option<String>)
    ensures
        match control_addr(port) {
            Some(a) => r matches Some(s) && s@ == a,
            None => r is None,
        },
{
    match port.checked_add(1) {
        Some(p) => Some(concat2("127.0.0.1:", decimal_text(p as u64).as_str())),
        None => None,
    }
}

/// The address of the control protocol of a connection: only a daemon in the
/// low-overhead mode speaks it.
pub open spec fn control_addr_of(low_overhead: bool, port: u16) -> Option<Seq<char>> {
    if low_overhead {
        control_addr(port)
    } else {
        None
    }
}

/// The address of the control protocol of a connection.
pub fn sync_control_addr<C>(entry: &ConnectionEntry<C>) -> (r: Option<String>)
    ensures
        match control_addr_of(entry.daemon_low_overhead, entry.port) {
            Some(a) => r matches Some(s) && s@ == a,
            None => r is None,
        },
{
    if !entry.daemon_low_overhead {
        return None;
    }
    sync_control_addr_for_port(entry.port)
}

/// What is done in a state.
pub open spec fn action_of(
    state: ConnectState<Seq<char>>,
    p: ConnectPlan<Seq<char>>,
) -> ConnectAction<Seq<char>> {
    match state {
        ConnectState::ListDevices => ConnectAction::ListDevices,
        ConnectState::Deploy => ConnectAction::Deploy,
        ConnectState::CheckAlive => ConnectAction::Shell(pidof()),
        ConnectState::FindPid => ConnectAction::Shell(pidof()),
        ConnectState::ReadPort { pid } => ConnectAction::Shell(cmdline_command(pid)),
        ConnectState::Forward { device_port } => ConnectAction::Adb(
            AdbCommand::Forward {
                serial: p.serial,
                local_port: p.port,
                remote_port: device_port,
            },
        ),
        ConnectState::ForwardSync { device_port } => ConnectAction::Adb(
            AdbCommand::Forward {
                serial: p.serial,
                local_port: (p.port + 1) as u16,
                remote_port: (device_port + 1) as u16,
            },
        ),
        ConnectState::SyncHealth => ConnectAction::SyncHealth {
            addr: "127.0.0.1:"@ + decimal((p.port + 1) as nat),
        },
        ConnectState::Lazy => ConnectAction::ConnectLazy { addr: service_addr(p.port) },
        ConnectState::Connect => ConnectAction::Connect { addr: service_addr(p.port) },
        ConnectState::Finished(e) => ConnectAction::Finish(e),
    }
}

/// Once ports are forwarded: the control protocol is asked first where there
/// is one.
pub open spec fn begin_client(p: ConnectPlan<Seq<char>>) -> ConnectState<Seq<char>> {
    if p.low_overhead && p.port < u16::MAX {
        ConnectState::SyncHealth
    } else {
        ConnectState::Connect
    }
}

/// What an action printed, where it was done.
pub open spec fn output_of(e: ConnectEvent<Seq<char>>) -> Option<Seq<char>> {
    if e.ok {
        Some(e.text)
    } else {
        None
    }
}

pub open spec fn failed(e: ConnectError<Seq<char>>) -> ConnectState<Seq<char>> {
    ConnectState::Finished(ConnectEnd::Failed(e))
}

/// Where a connection goes on after an event.
pub open spec fn next_state(
    state: ConnectState<Seq<char>>,
    p: ConnectPlan<Seq<char>>,
    e: ConnectEvent<Seq<char>>,
) -> ConnectState<Seq<char>> {
    match state {
        ConnectState::ListDevices => if !e.ok {
            failed(ConnectError::DevicesUnlisted(e.text))
        } else if !e.present {
            failed(ConnectError::DeviceNotFound)
        } else if p.deploy {
            ConnectState::Deploy
        } else {
            ConnectState::Forward { device_port: DAEMON_PORT }
        },
        ConnectState::Deploy => if e.ok {
            ConnectState::CheckAlive
        } else {
            failed(ConnectError::DeployFailed(e.text))
        },
        ConnectState::CheckAlive => if running(output_of(e)) {
            ConnectState::FindPid
        } else {
            failed(ConnectError::NotAlive)
        },
        ConnectState::FindPid => match first_word(output_of(e)) {
            Some(pid) => ConnectState::ReadPort { pid },
            None => ConnectState::Forward { device_port: p.port },
        },
        ConnectState::ReadPort { .. } => match grpc_port(output_of(e)) {
            Some(port) => ConnectState::Forward { device_port: port },
            None => ConnectState::Forward { device_port: p.port },
        },
        ConnectState::Forward { device_port } => if !e.ok {
            failed(ConnectError::ForwardFailed(e.text))
        } else if !p.low_overhead {
            ConnectState::Connect
        } else if p.port < u16::MAX && device_port < u16::MAX {
            ConnectState::ForwardSync { device_port }
        } else if p.strict {
            failed(ConnectError::PortOverflow)
        } else {
            begin_client(p)
        },
        ConnectState::ForwardSync { .. } => if !e.ok && p.strict {
            failed(ConnectError::SyncForwardFailed(e.text))
        } else {
            begin_client(p)
        },
        ConnectState::SyncHealth => if e.ok {
            ConnectState::Lazy
        } else {
            ConnectState::Connect
        },
        ConnectState::Lazy => if e.ok {
            ConnectState::Finished(ConnectEnd::Connected)
        } else {
            failed(ConnectError::LazyFailed(e.text))
        },
        ConnectState::Connect => if e.ok {
            ConnectState::Finished(ConnectEnd::Connected)
        } else {
            failed(ConnectError::DaemonUnreachable(e.text))
        },
        ConnectState::Finished(end) => ConnectState::Finished(end),
    }
}

/// Whether a state can be reached under a plan: ports behind the last one are
/// never asked for.
pub open spec fn reachable(state: ConnectState<Seq<char>>, p: ConnectPlan<Seq<char>>) -> bool {
    match state {
        ConnectState::ForwardSync { device_port } => p.low_overhead && p.port < u16::MAX
            && device_port < u16::MAX,
        ConnectState::SyncHealth => p.low_overhead && p.port < u16::MAX,
        ConnectState::Lazy => p.low_overhead && p.port < u16::MAX,
        _ => true,
    }
}

fn begin_client_state(p: &ConnectPlan<String>) -> (s: ConnectState<String>)
    ensures
        s@ == begin_client(p@),
{
    if p.low_overhead && p.port < u16::MAX {
        ConnectState::SyncHealth
    } else {
        ConnectState::Connect
    }
}

fn failed_state(e: ConnectError<String>) -> (s: ConnectState<String>)
    ensures
        s@ == failed(e@),
{
    ConnectState::Finished(ConnectEnd::Failed(e))
}

impl ConnectState<String> {
    /// The first step: look for the device.
    pub fn begin() -> (s: ConnectState<String>)
        ensures
            s@ == ConnectState::<Seq<char>>::ListDevices,
    {
        ConnectState::ListDevices
    }

    /// What is done in this state.
    pub fn action(&self, p: &ConnectPlan<String>) -> (a: ConnectAction<String>)
        requires
            reachable(self@, p@),
        ensures
            a@ == action_of(self@, p@),
    {
        match self {
            ConnectState::ListDevices => ConnectAction::ListDevices,
            ConnectState::Deploy => ConnectAction::Deploy,
            ConnectState::CheckAlive => ConnectAction::Shell("pidof realtime_profile".to_string()),
            ConnectState::FindPid => ConnectAction::Shell("pidof realtime_profile".to_string()),
            ConnectState::ReadPort { pid } => ConnectAction::Shell(
                concat3("cat /proc/", pid.as_str(), "/cmdline | tr '\\0' ' '"),
            ),
            ConnectState::Forward { device_port } => ConnectAction::Adb(
                forward(p.serial.as_str(), p.port, *device_port),
            ),
            ConnectState::ForwardSync { device_port } => ConnectAction::Adb(
                forward(p.serial.as_str(), p.port + 1, *device_port + 1),
            ),
            ConnectState::SyncHealth => ConnectAction::SyncHealth {
                addr: concat2("127.0.0.1:", decimal_text((p.port + 1) as u64).as_str()),
            },
            ConnectState::Lazy => ConnectAction::ConnectLazy { addr: service_address(p.port) },
            ConnectState::Connect => ConnectAction::Connect { addr: service_address(p.port) },
            ConnectState::Finished(ConnectEnd::Connected) => ConnectAction::Finish(
                ConnectEnd::Connected,
            ),
            ConnectState::Finished(ConnectEnd::Failed(e)) => ConnectAction::Finish(
                ConnectEnd::Failed(copy_error(e)),
            ),
        }
    }

    /// Where the connection goes on after an event.
    pub fn advance(self, p: &ConnectPlan<String>, e: ConnectEvent<String>) -> (s: ConnectState<
        String,
    >)
        requires
            reachable(self@, p@),
        ensures
            s@ == next_state(self@, p@, e@),
            reachable(s@, p@),
    {
        match self {
            ConnectState::ListDevices => if !e.ok {
                failed_state(ConnectError::DevicesUnlisted(e.text))
            } else if !e.present {
                failed_state(ConnectError::DeviceNotFound)
            } else if p.deploy {
                ConnectState::Deploy
            } else {
                ConnectState::Forward { device_port: DAEMON_PORT }
            },
            ConnectState::Deploy => if e.ok {
                ConnectState::CheckAlive
            } else {
                failed_state(ConnectError::DeployFailed(e.text))
            },
            ConnectState::CheckAlive => {
                let output: Option<&str> = if e.ok {
                    Some(e.text.as_str())
                } else {
                    None
                };
                if is_running(output) {
                    ConnectState::FindPid
                } else {
                    failed_state(ConnectError::NotAlive)
                }
            },
            ConnectState::FindPid => {
                let output: Option<&str> = if e.ok {
                    Some(e.text.as_str())
                } else {
                    None
                };
                match take_first_word(output) {
                    Some(pid) => ConnectState::ReadPort { pid },
                    None => ConnectState::Forward { device_port: p.port },
                }
            },
            ConnectState::ReadPort { .. } => {
                let output: Option<&str> = if e.ok {
                    Some(e.text.as_str())
                } else {
                    None
                };
                match get_grpc_port(output) {
                    Some(port) => ConnectState::Forward { device_port: port },
                    None => ConnectState::Forward { device_port: p.port },
                }
            },
            ConnectState::Forward { device_port } => if !e.ok {
                failed_state(ConnectError::ForwardFailed(e.text))
            } else if !p.low_overhead {
                ConnectState::Connect
            } else if p.port < u16::MAX && device_port < u16::MAX {
                ConnectState::ForwardSync { device_port }
            } else if p.strict {
                failed_state(ConnectError::PortOverflow)
            } else {
                begin_client_state(p)
            },
            ConnectState::ForwardSync { .. } => if !e.ok && p.strict {
                failed_state(ConnectError::SyncForwardFailed(e.text))
            } else {
                begin_client_state(p)
            },
            ConnectState::SyncHealth => if e.ok {
                ConnectState::Lazy
            } else {
                ConnectState::Connect
            },
            ConnectState::Lazy => if e.ok {
                ConnectState::Finished(ConnectEnd::Connected)
            } else {
                failed_state(ConnectError::LazyFailed(e.text))
            },
            ConnectState::Connect => if e.ok {
                ConnectState::Finished(ConnectEnd::Connected)
            } else {
                failed_state(ConnectError::DaemonUnreachable(e.text))
            },
            ConnectState::Finished(end) => ConnectState::Finished(end),
        }
    }
}

fn copy_error(e: &ConnectError<String>) -> (r: ConnectError<String>)
    ensures
        r@ == e@,
{
    match e {
        ConnectError::DevicesUnlisted(m) => ConnectError::DevicesUnlisted(m.clone()),
        ConnectError::DeviceNotFound => ConnectError::DeviceNotFound,
        ConnectError::DeployFailed(m) => ConnectError::DeployFailed(m.clone()),
        ConnectError::NotAlive => ConnectError::NotAlive,
        ConnectError::ForwardFailed(m) => ConnectError::ForwardFailed(m.clone()),
        ConnectError::SyncForwardFailed(m) => ConnectError::SyncForwardFailed(m.clone()),
        ConnectError::PortOverflow => ConnectError::PortOverflow,
        ConnectError::LazyFailed(m) => ConnectError::LazyFailed(m.clone()),
        ConnectError::DaemonUnreachable(m) => ConnectError::DaemonUnreachable(m.clone()),
    }
}

/// The entry of a connection that was made under a plan.
pub fn connected<C>(p: &ConnectPlan<String>, client: C) -> (entry: ConnectionEntry<C>)
    ensures
        entry.serial@ == p@.serial,
        entry.client == client,
        entry.port == p.port,
        entry.daemon_low_overhead == p.low_overhead,
{
    ConnectionEntry {
        serial: p.serial.clone(),
        client,
        port: p.port,
        daemon_low_overhead: p.low_overhead,
    }
}

// ---------------------------------------------------------------------------
// Laws
// ---------------------------------------------------------------------------

/// A connection is there only after a client was made.
pub proof fn law_connected_means_a_client_was_made(
    state: ConnectState<Seq<char>>,
    p: ConnectPlan<Seq<char>>,
    e: ConnectEvent<Seq<char>>,
)
    requires
        !(state is Finished),
        next_state(state, p, e) == ConnectState::<Seq<char>>::Finished(ConnectEnd::Connected),
    ensures
        e.ok,
        state is Connect || state is Lazy,
        action_of(state, p) is Connect || action_of(state, p) is ConnectLazy,
{
}

/// A connection that is not strict never fails over its control port: it falls
/// back to the service.
pub proof fn law_control_port_is_optional(
    state: ConnectState<Seq<char>>,
    p: ConnectPlan<Seq<char>>,
    e: ConnectEvent<Seq<char>>,
)
    requires
        !p.strict,
        !(state is Finished),
    ensures
        next_state(state, p, e) != failed(ConnectError::PortOverflow),
        next_state(state, p, e) != failed(ConnectError::SyncForwardFailed(e.text)),
        state is SyncHealth && !e.ok ==> next_state(state, p, e) is Connect,
{
}

/// How many steps can still follow.
pub open spec fn steps_left(state: ConnectState<Seq<char>>) -> nat {
    match state {
        ConnectState::ListDevices => 10,
        ConnectState::Deploy => 9,
        ConnectState::CheckAlive => 8,
        ConnectState::FindPid => 7,
        ConnectState::ReadPort { .. } => 6,
        ConnectState::Forward { .. } => 5,
        ConnectState::ForwardSync { .. } => 4,
        ConnectState::SyncHealth => 3,
        ConnectState::Lazy => 1,
        ConnectState::Connect => 1,
        ConnectState::Finished(_) => 0,
    }
}

/// Every connection ends: each step brings the end nearer.
pub proof fn law_connecting_ends(
    state: ConnectState<Seq<char>>,
    p: ConnectPlan<Seq<char>>,
    e: ConnectEvent<Seq<char>>,
)
    requires
        !(state is Finished),
    ensures
        steps_left(next_state(state, p, e)) < steps_left(state),
{
}

} // verus!
