//! What connecting to a daemon comes to: which ports are forwarded to which,
//! where the client connects, and why a connection fails.
use vstd::prelude::*;
use crate::adb::commands::AdbCommand;
use crate::adb::daemon::{first_word, grpc_port, running};
use crate::connect::{
    ConnectAction, ConnectEnd, ConnectError, ConnectEvent, ConnectPlan, ConnectState, action_of,
    control_addr, control_addr_of, next_state, service_addr,
};
use crate::number::decimal;

verus! {

/// Where a connection stands, as contracts speak of it.
pub type Connecting = ConnectState<Seq<char>>;

/// A connection that has failed, and why.
pub open spec fn ended(e: ConnectError<Seq<char>>) -> Connecting {
    Connecting::Finished(ConnectEnd::Failed(e))
}

/// The ports of a connection: the local port goes to the daemon's, and the
/// control protocol has the next port on both sides. The client connects to
/// the local port, and the daemon is asked for its health on the next one.
pub proof fn law_the_control_protocol_has_the_next_port(
    p: ConnectPlan<Seq<char>>,
    device_port: u16,
)
    requires
        p.port < u16::MAX,
        device_port < u16::MAX,
    ensures
        action_of(Connecting::Forward { device_port }, p) == ConnectAction::Adb(
            AdbCommand::Forward {
                serial: p.serial,
                local_port: p.port,
                remote_port: device_port,
            },
        ),
        ({
            let a = action_of(Connecting::ForwardSync { device_port }, p);
            &&& a is Adb
            &&& a->Adb_0 is Forward
            &&& a->Adb_0->Forward_serial == p.serial
            &&& a->Adb_0->local_port == p.port + 1
            &&& a->Adb_0->remote_port == device_port + 1
        }),
        action_of(Connecting::SyncHealth, p) == (ConnectAction::SyncHealth {
            addr: "127.0.0.1:"@ + decimal((p.port + 1) as nat),
        }),
        control_addr(p.port) == Some("127.0.0.1:"@ + decimal((p.port + 1) as nat)),
        action_of(Connecting::Lazy, p) == (ConnectAction::ConnectLazy {
            addr: "http://127.0.0.1:"@ + decimal(p.port as nat),
        }),
        action_of(Connecting::Connect, p) == (ConnectAction::Connect {
            addr: "http://127.0.0.1:"@ + decimal(p.port as nat),
        }),
        service_addr(p.port) == "http://127.0.0.1:"@ + decimal(p.port as nat),
{
}

/// Only a daemon in its low-overhead mode speaks the control protocol, and
/// none does behind the last port.
pub proof fn law_only_low_overhead_speaks_the_control_protocol(low_overhead: bool, port: u16)
    ensures
        control_addr_of(low_overhead, port) is Some <==> low_overhead && port < u16::MAX,
        low_overhead && port < u16::MAX ==> control_addr_of(low_overhead, port) == Some(
            "127.0.0.1:"@ + decimal((port + 1) as nat),
        ),
{
}

/// The port of the daemon: the usual one where it is taken to run already,
/// and else the one on its command line, or the one asked for where that
/// cannot be read.
pub proof fn law_the_daemons_port_is_found_out(
    state: Connecting,
    p: ConnectPlan<Seq<char>>,
    e: ConnectEvent<Seq<char>>,
)
    ensures
        ({
            let next = next_state(state, p, e);
            let printed = if e.ok { Some(e.text) } else { None };
            &&& state is ListDevices && e.ok && e.present ==> next == if p.deploy {
                Connecting::Deploy
            } else {
                Connecting::Forward { device_port: 50051 }
            }
            &&& state is Deploy && e.ok ==> next is CheckAlive
            &&& state is CheckAlive && running(printed) ==> next is FindPid
            &&& state is FindPid ==> next == match first_word(printed) {
                Some(pid) => Connecting::ReadPort { pid },
                None => Connecting::Forward { device_port: p.port },
            }
            &&& state is ReadPort ==> next == match grpc_port(printed) {
                Some(port) => Connecting::Forward { device_port: port },
                None => Connecting::Forward { device_port: p.port },
            }
        }),
{
}

/// Once the port is forwarded: the control port is forwarded and asked first
/// where there is one and the mode speaks it; whether it answers decides how
/// the client connects, and only a strict connection fails over it.
pub proof fn law_the_control_protocol_is_tried_first(
    state: Connecting,
    p: ConnectPlan<Seq<char>>,
    e: ConnectEvent<Seq<char>>,
)
    ensures
        ({
            let next = next_state(state, p, e);
            let client = if p.low_overhead && p.port < u16::MAX {
                Connecting::SyncHealth
            } else {
                Connecting::Connect
            };
            &&& state matches Connecting::Forward { device_port } ==> e.ok ==> next == if
                !p.low_overhead {
                Connecting::Connect
            } else if p.port < u16::MAX && device_port < u16::MAX {
                Connecting::ForwardSync { device_port }
            } else if p.strict {
                ended(ConnectError::PortOverflow)
            } else {
                client
            }
            &&& state is ForwardSync && (e.ok || !p.strict) ==> next == client
            &&& state is ForwardSync && !e.ok && p.strict ==> next == ended(
                ConnectError::SyncForwardFailed(e.text),
            )
            &&& state is SyncHealth ==> next == if e.ok {
                Connecting::Lazy
            } else {
                Connecting::Connect
            }
        }),
{
}

/// A connection fails at the step that was not done, and says what was said
/// of it; it is there once a client was made.
pub proof fn law_a_connection_fails_at_the_step_that_was_not_done(
    state: Connecting,
    p: ConnectPlan<Seq<char>>,
    e: ConnectEvent<Seq<char>>,
)
    ensures
        ({
            let next = next_state(state, p, e);
            let printed = if e.ok { Some(e.text) } else { None };
            &&& state is ListDevices && !e.ok ==> next == ended(
                ConnectError::DevicesUnlisted(e.text),
            )
            &&& state is ListDevices && e.ok && !e.present ==> next == ended(
                ConnectError::DeviceNotFound,
            )
            &&& state is Deploy && !e.ok ==> next == ended(ConnectError::DeployFailed(e.text))
            &&& state is CheckAlive && !running(printed) ==> next == ended(ConnectError::NotAlive)
            &&& state is Forward && !e.ok ==> next == ended(ConnectError::ForwardFailed(e.text))
            &&& state is Lazy ==> next == if e.ok {
                Connecting::Finished(ConnectEnd::Connected)
            } else {
                ended(ConnectError::LazyFailed(e.text))
            }
            &&& state is Connect ==> next == if e.ok {
                Connecting::Finished(ConnectEnd::Connected)
            } else {
                ended(ConnectError::DaemonUnreachable(e.text))
            }
        }),
{
}

/// What is done at each step before the ports: the devices are listed, the
/// daemon is deployed, looked for by its name, and asked for its command line.
/// An end is told as it is.
pub proof fn law_each_step_of_a_connection_does_its_own_work(
    p: ConnectPlan<Seq<char>>,
    pid: Seq<char>,
    end: ConnectEnd<Seq<char>>,
)
    ensures
        action_of(Connecting::ListDevices, p) is ListDevices,
        action_of(Connecting::Deploy, p) is Deploy,
        action_of(Connecting::CheckAlive, p) == ConnectAction::Shell("pidof realtime_profile"@),
        action_of(Connecting::FindPid, p) == ConnectAction::Shell("pidof realtime_profile"@),
        action_of((Connecting::ReadPort { pid }), p) == ConnectAction::Shell(
            "cat /proc/"@ + pid + "/cmdline | tr '\\0' ' '"@,
        ),
        action_of(Connecting::Finished(end), p) == ConnectAction::Finish(end),
{
}

} // verus!
