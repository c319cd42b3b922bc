use profiler_core::core_api::{CoreApi, CoreError, HealthInfo, connect_outcome, health_outcome};
use profiler_core::connect::{ConnectEnd, ConnectError};
use profiler_core::double::Double;
use profiler_core::grpc::frame::{ReplyStep, command_bytes, read_reply, write_message};
use profiler_core::grpc::sync_control;
use profiler_core::proto::{Request, RtbStreamOptions};
use profiler_core::runtime::{ConnectionEntry, Runtime};

fn started() -> Runtime<u32, u32> {
    let mut rt = Runtime::new();
    let _ = CoreApi::initialize(&mut rt).expect("runtime initialization should succeed");
    rt
}

fn linked(serial: &str, port: u16, low_overhead: bool) -> Runtime<u32, u32> {
    let mut rt = started();
    rt.state.as_mut().unwrap().connections.insert(ConnectionEntry {
        serial: serial.to_string(),
        client: 7,
        port,
        daemon_low_overhead: low_overhead,
    });
    rt
}

fn double(value: f64) -> Double {
    Double::from_bits(value.to_bits())
}

#[test]
fn core_api_initialization_is_idempotent() {
    let mut rt: Runtime<u32, u32> = Runtime::new();
    let first = CoreApi::initialize(&mut rt).expect("first initialization should succeed");
    let second = CoreApi::initialize(&mut rt).expect("second initialization should succeed");

    assert!(first.runtime_ready);
    assert!(second.runtime_ready);
    assert!(first.freshly_initialized);
    assert!(!second.freshly_initialized);
}

#[test]
fn core_error_display_is_typed_and_readable() {
    let err = CoreError::InvalidInput("serial is required".to_string());

    assert_eq!(err.to_string(), "invalid input: serial is required");
}

#[test]
fn every_core_error_has_its_own_words() {
    let m = "x".to_string();
    assert_eq!(CoreError::DeviceNotFound(m.clone()).to_string(), "device not found: x");
    assert_eq!(CoreError::DaemonNotRunning(m.clone()).to_string(), "daemon not running: x");
    assert_eq!(CoreError::Operation(m.clone()).to_string(), "operation failed: x");
    assert_eq!(CoreError::Runtime(m).to_string(), "runtime error: x");
}

#[test]
fn device_operations_validate_required_inputs_before_adb() {
    let mut rt = started();

    let err = CoreApi::adb_shell("", "id").expect_err("empty serial must be rejected before adb");
    assert!(matches!(err, CoreError::InvalidInput(_)));

    let err = CoreApi::adb_push("device", "", "/data/local/tmp/file")
        .expect_err("empty local path must be rejected before adb");
    assert!(matches!(err, CoreError::InvalidInput(_)));

    let err = CoreApi::connect(&mut rt, "", 50051)
        .expect_err("empty serial must be rejected before connecting");
    assert!(matches!(err, CoreError::InvalidInput(_)));
}

#[test]
fn utility_operations_validate_required_inputs_before_daemon_access() {
    let mut rt = started();

    let err = CoreApi::daemon_shell(&mut rt, "", "id")
        .expect_err("empty serial must be rejected before daemon access");
    assert!(matches!(err, CoreError::InvalidInput(_)));

    let err = CoreApi::get_package_info(&mut rt, "device", "")
        .expect_err("empty package must be rejected before daemon access");
    assert!(matches!(err, CoreError::InvalidInput(_)));

    let err = CoreApi::path_exists(&mut rt, "device", "")
        .expect_err("empty path must be rejected before daemon access");
    assert!(matches!(err, CoreError::InvalidInput(_)));

    let err = CoreApi::input_text(&mut rt, "device", "")
        .expect_err("empty text must be rejected before daemon access");
    assert!(matches!(err, CoreError::InvalidInput(_)));

    let err = CoreApi::screenshot(&mut rt, "device", 85, "")
        .expect_err("empty local path must be rejected before daemon access");
    assert!(matches!(err, CoreError::InvalidInput(_)));
}

#[test]
fn recording_operations_validate_required_inputs_before_daemon_access() {
    let mut rt = started();

    let err = CoreApi::start_rtb_stream(
        &mut rt,
        "",
        123,
        double(1.0),
        "mperf",
        RtbStreamOptions::default(),
    )
    .expect_err("empty serial must be rejected before daemon access");
    assert!(matches!(err, CoreError::InvalidInput(_)));

    let err = CoreApi::start_cr_stream(
        &mut rt,
        "device",
        double(0.0),
        &[0],
        false,
        false,
        false,
        &[],
    )
    .expect_err("non-positive interval must be rejected before daemon access");
    assert!(matches!(err, CoreError::InvalidInput(_)));

    let err = CoreApi::start_perfetto(&mut rt, "device", 0, "", 10, "buffers {}")
        .expect_err("empty mode must be rejected before daemon access");
    assert!(matches!(err, CoreError::InvalidInput(_)));

    let err = CoreApi::pull_file(&mut rt, "device", "", "/tmp/out")
        .expect_err("empty remote path must be rejected before daemon access");
    assert!(matches!(err, CoreError::InvalidInput(_)));
}

#[test]
fn rtb_stream_allows_empty_legacy_full_mode() {
    let mut rt = started();

    let err = CoreApi::start_rtb_stream(
        &mut rt,
        "missing-device",
        123,
        double(1.0),
        "",
        RtbStreamOptions::default(),
    )
    .expect_err("missing device should fail after mode validation");

    assert!(matches!(err, CoreError::DeviceNotFound(_)));
}

/// A length-delimited field of a message, as the daemon encodes it.
fn field(number: u8, text: &str) -> Vec<u8> {
    let mut bytes = vec![number << 3 | 2, text.len() as u8];
    bytes.extend_from_slice(text.as_bytes());
    bytes
}

#[test]
fn low_overhead_health_check_uses_sync_control_port() {
    let sync_port: u16 = 40002;
    let base_port = sync_port - 1;
    let serial = "low-overhead-sync-health";
    let mut rt = linked(serial, base_port, true);

    let route = CoreApi::health_check(&mut rt, serial).expect("the device is connected");
    assert_eq!(route.serial, serial);
    assert_eq!(route.sync_addr, Some(format!("127.0.0.1:{sync_port}")));

    let call = sync_control::health(&route.sync_addr.unwrap());
    assert_eq!(call.opcode, 2);
    let request = command_bytes(call.opcode, &vec![]);
    assert_eq!(request, vec![2, 0, 0, 0, 0]);

    let mut message = field(1, "sync-v1");
    message.extend(field(2, "ok"));
    let mut reply = vec![0u8];
    write_message(&mut reply, &message);
    let got = match read_reply(&reply) {
        ReplyStep::Message(m) => m,
        other => panic!("low-overhead health should use sync control: {other:?}"),
    };
    assert_eq!(got, message);

    let version = String::from_utf8(got[2..9].to_vec()).unwrap();
    let status = String::from_utf8(got[11..].to_vec()).unwrap();
    let health = health_outcome(Some(HealthInfo { version, status }), Err("not asked".to_string()))
        .expect("low-overhead health should use sync control");
    assert_eq!(health.version, "sync-v1");
    assert_eq!(health.status, "ok");
}

#[test]
fn health_check_falls_back_to_the_service() {
    let mut rt = linked("d", 50051, false);
    let route = CoreApi::health_check(&mut rt, "d").unwrap();
    assert_eq!(route.sync_addr, None);
    let up = HealthInfo { version: "v".to_string(), status: "up".to_string() };
    let health = health_outcome(None, Ok(up)).unwrap();
    assert_eq!(health.version, "v");
    assert_eq!(health.status, "up");
    let err = health_outcome(None, Err("gone".to_string())).unwrap_err();
    assert_eq!(err.to_string(), "daemon not running: gone");
}

#[test]
fn calls_carry_their_arguments() {
    let mut rt = linked("d", 50051, false);
    let call = CoreApi::chown(&mut rt, "d", "/f", 1, 2, true).unwrap();
    assert_eq!(call.serial, "d");
    match call.call {
        Request::Chown { path, uid, gid, recursive } => {
            assert_eq!(path, "/f");
            assert_eq!((uid, gid, recursive), (1, 2, true));
        }
        other => panic!("{other:?}"),
    }
}

#[test]
fn zero_ports_and_counts_are_refused() {
    let mut rt = started();
    let err = CoreApi::connect(&mut rt, "d", 0).unwrap_err();
    assert_eq!(err.to_string(), "invalid input: port must be greater than zero");
    let err = CoreApi::start_perfetto(&mut rt, "d", 0, "m", 0, "c").unwrap_err();
    assert_eq!(err.to_string(), "invalid input: duration_secs must be greater than zero");
    let err = CoreApi::get_pid(&mut rt, "d", " ").unwrap_err();
    assert_eq!(err.to_string(), "invalid input: package name is required");
}

#[test]
fn disconnecting_twice_finds_nothing_the_second_time() {
    let mut rt = linked("d", 50051, true);
    assert!(CoreApi::is_connected(&mut rt, "d").unwrap());
    assert!(CoreApi::disconnect(&mut rt, "d").is_ok());
    assert!(!CoreApi::is_connected(&mut rt, "d").unwrap());
    let err = CoreApi::disconnect(&mut rt, "d").unwrap_err();
    assert_eq!(err.to_string(), "device not found: d");
}

#[test]
fn connections_that_fail_say_why() {
    let fail = |e| connect_outcome(ConnectEnd::Failed(e), "d").unwrap_err().to_string();
    assert_eq!(fail(ConnectError::DeviceNotFound), "device not found: d");
    assert_eq!(
        fail(ConnectError::NotAlive),
        "daemon not running: realtime_profile did not stay alive"
    );
    assert_eq!(
        fail(ConnectError::PortOverflow),
        "invalid input: sync control port overflow"
    );
    assert_eq!(
        fail(ConnectError::DaemonUnreachable("x".to_string())),
        "daemon not running: x"
    );
    assert_eq!(
        fail(ConnectError::DevicesUnlisted("x".to_string())),
        "operation failed: x"
    );
    assert!(connect_outcome(ConnectEnd::Connected, "d").is_ok());
}

#[test]
fn network_connections_take_three_commands() {
    let w = CoreApi::wifi_adb_connect("d", "10.0.0.2", 5555).unwrap();
    assert_eq!(w.disconnect.args(), vec!["disconnect"]);
    assert_eq!(w.listen.args(), vec!["-s", "d", "tcpip", "5555"]);
    assert_eq!(w.connect.args(), vec!["connect", "10.0.0.2:5555"]);
}
