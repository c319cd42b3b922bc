use profiler_core::connect::{
    ConnectAction, ConnectEnd, ConnectError, ConnectEvent, ConnectPlan, ConnectState, connected,
    service_address, sync_control_addr, sync_control_addr_for_port,
};
use profiler_core::ffi::outcome::connect_verdict;
use profiler_core::ffi::types::ProfilerResult;

fn plan(port: u16, deploy: bool, strict: bool) -> ConnectPlan<String> {
    ConnectPlan {
        serial: "s".to_string(),
        local_path: String::new(),
        remote_path: "/data/rp".to_string(),
        port,
        low_overhead: deploy,
        deploy,
        strict,
    }
}

fn event(ok: bool, text: &str) -> ConnectEvent<String> {
    ConnectEvent { ok, text: text.to_string(), present: true }
}

/// Runs a connection whose actions are answered by `reply`.
fn run(
    p: &ConnectPlan<String>,
    reply: impl Fn(&str) -> ConnectEvent<String>,
) -> (Vec<String>, ConnectEnd<String>) {
    let mut state = ConnectState::begin();
    let mut asked = vec![];
    for _ in 0..20 {
        let what = match state.action(p) {
            ConnectAction::ListDevices => "list".to_string(),
            ConnectAction::Deploy => "deploy".to_string(),
            ConnectAction::Shell(c) => c,
            ConnectAction::Adb(c) => c.args()[2..].join(" "),
            ConnectAction::SyncHealth { addr } => format!("health {addr}"),
            ConnectAction::ConnectLazy { addr } => format!("lazy {addr}"),
            ConnectAction::Connect { addr } => format!("connect {addr}"),
            ConnectAction::Finish(end) => return (asked, end),
        };
        let e = reply(&what);
        asked.push(what);
        state = state.advance(p, e);
    }
    panic!("{asked:?}")
}

#[test]
fn addresses_are_local() {
    assert_eq!(service_address(50051), "http://127.0.0.1:50051");
    assert_eq!(sync_control_addr_for_port(50051), Some("127.0.0.1:50052".to_string()));
    assert_eq!(sync_control_addr_for_port(65535), None);
    let entry = connected(&plan(5, true, true), 1u8);
    assert_eq!(entry.serial, "s");
    assert_eq!(sync_control_addr(&entry), Some("127.0.0.1:6".to_string()));
    assert_eq!(sync_control_addr(&connected(&plan(5, false, true), 1u8)), None);
}

#[test]
fn a_plain_connection_forwards_to_the_usual_port() {
    let (asked, end) = run(&plan(6000, false, true), |_| event(true, ""));
    assert!(matches!(end, ConnectEnd::Connected));
    assert_eq!(
        asked,
        vec!["list", "forward tcp:6000 tcp:50051", "connect http://127.0.0.1:6000"]
    );
}

#[test]
fn a_deployed_connection_finds_the_port_and_the_control_protocol() {
    let (asked, end) = run(&plan(6000, true, true), |what| {
        event(
            true,
            if what.starts_with("pidof") {
                "77"
            } else {
                "rp --grpc-port 50061"
            },
        )
    });
    assert!(matches!(end, ConnectEnd::Connected));
    assert!(asked.contains(&"forward tcp:6000 tcp:50061".to_string()));
    assert!(asked.contains(&"forward tcp:6001 tcp:50062".to_string()));
    assert_eq!(asked.last().unwrap(), "lazy http://127.0.0.1:6000");
}

#[test]
fn without_the_control_protocol_the_service_is_used() {
    let (asked, end) = run(&plan(6000, true, false), |what| {
        event(
            !what.starts_with("health") && !what.starts_with("forward tcp:6001"),
            "77 --grpc-port 50051",
        )
    });
    assert!(matches!(end, ConnectEnd::Connected));
    assert_eq!(asked.last().unwrap(), "connect http://127.0.0.1:6000");
}

#[test]
fn connections_fail_where_a_step_fails() {
    let end = |p: &ConnectPlan<String>, bad: &str| {
        run(p, |what| event(!what.starts_with(bad), "77 --grpc-port 50051")).1
    };
    let plain = plan(6000, false, true);
    let e = end(&plain, "list");
    assert!(matches!(e, ConnectEnd::Failed(ConnectError::DevicesUnlisted(_))));
    assert_eq!(connect_verdict(&e), ProfilerResult::OperationFailed);
    let e = end(&plain, "forward");
    assert!(matches!(e, ConnectEnd::Failed(ConnectError::ForwardFailed(_))));
    let e = end(&plain, "connect");
    assert!(matches!(e, ConnectEnd::Failed(ConnectError::DaemonUnreachable(_))));
    assert_eq!(connect_verdict(&e), ProfilerResult::DaemonNotRunning);
    let deployed = plan(6000, true, true);
    let e = end(&deployed, "deploy");
    assert!(matches!(e, ConnectEnd::Failed(ConnectError::DeployFailed(_))));
    let e = end(&deployed, "forward tcp:6001");
    assert!(matches!(e, ConnectEnd::Failed(ConnectError::SyncForwardFailed(_))));
    let e = end(&deployed, "lazy");
    assert!(matches!(e, ConnectEnd::Failed(ConnectError::LazyFailed(_))));
    let e = run(&plan(65535, true, true), |_| event(true, "77 --grpc-port 50051")).1;
    assert!(matches!(e, ConnectEnd::Failed(ConnectError::PortOverflow)));
    let e = run(&plain, |_| ConnectEvent { ok: true, text: String::new(), present: false }).1;
    assert!(matches!(e, ConnectEnd::Failed(ConnectError::DeviceNotFound)));
    assert_eq!(connect_verdict(&e), ProfilerResult::DeviceNotFound);
    let e = run(&deployed, |what| event(true, if what.starts_with("pidof") { " " } else { "" })).1;
    assert!(matches!(e, ConnectEnd::Failed(ConnectError::NotAlive)));
    assert_eq!(connect_verdict(&e), ProfilerResult::DaemonNotRunning);
    assert_eq!(connect_verdict(&ConnectEnd::Connected), ProfilerResult::Success);
}
