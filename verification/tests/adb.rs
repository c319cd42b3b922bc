use profiler_core::adb::commands::{AdbCommand, AdbOutput, is_root_shell, reverse, shell};
use profiler_core::adb::daemon::{
    RootMode, daemon_low_overhead_matches, get_daemon_pid, get_daemon_uid, get_grpc_port,
    is_running, remote_dir, remote_library, start_command,
};
use profiler_core::adb::deploy::{DeployAction, DeployError, DeployTarget, ensure_running_rooted};
use profiler_core::adb::devices::{get_devices, is_present, parse_devices_output};

#[test]
fn test_parse_devices_output() {
    let output = "\
List of devices attached
R5CR1234567         device usb:1-1 product:gts9uwifi model:SM_X710 device:gts9uwifi transport_id:1
192.168.1.100:5555  device product:phone model:Pixel_7 device:panther transport_id:2

";
    let devices = parse_devices_output(output).unwrap();
    assert_eq!(devices.len(), 2);
    assert_eq!(devices[0].serial, "R5CR1234567");
    assert_eq!(devices[0].state, "device");
    assert_eq!(devices[0].model, "SM X710");
    assert_eq!(devices[1].serial, "192.168.1.100:5555");
    assert_eq!(devices[1].model, "Pixel 7");
}

#[test]
fn devices_have_a_product_and_a_name() {
    let devices = parse_devices_output(
        "header\nS1 device product:gts9 model:A_B device:panther\nS2 unauthorized usb:1\n",
    )
    .unwrap();
    assert_eq!(devices[0].product, "gts9");
    assert_eq!(devices[0].device_name, "panther");
    assert_eq!(devices[0].model, "A B");
    assert_eq!(devices[1].state, "unauthorized");
    assert_eq!(devices[1].model, "");
    assert!(is_present(&devices, "S1"));
    assert!(!is_present(&devices, "S2"));
    assert!(!is_present(&devices, "S3"));
    assert_eq!(get_devices().args(), vec!["devices", "-l"]);
}

fn output(success: bool, stdout: &[u8], stderr: &[u8]) -> AdbOutput {
    AdbOutput { success, stdout: stdout.to_vec(), stderr: stderr.to_vec() }
}

#[test]
fn commands_become_arguments() {
    assert_eq!(shell("s", "ls -l").args(), vec!["-s", "s", "shell", "ls -l"]);
    assert_eq!(reverse("s", 1, 2).args(), vec!["-s", "s", "reverse", "tcp:1", "tcp:2"]);
    let forward = AdbCommand::Forward {
        serial: "s".to_string(),
        local_port: 1,
        remote_port: 65535,
    };
    assert_eq!(forward.args(), vec!["-s", "s", "forward", "tcp:1", "tcp:65535"]);
}

#[test]
fn outputs_become_texts_or_errors() {
    let c = shell("s", "x");
    assert_eq!(c.outcome(&output(true, b"caf\xc3\xa9\xff", b"")).unwrap(), "caf\u{e9}\u{fffd}");
    let e = c.outcome(&output(false, b"", b"no \xfe")).unwrap_err();
    assert_eq!(e.message(), "adb shell failed: no \u{fffd}");
    assert_eq!(c.not_run().message(), "Failed to execute adb shell");
    let root = AdbCommand::Root { serial: "s".to_string() };
    assert!(root.outcome(&output(false, b"restarting", b"")).is_ok());
    assert!(is_root_shell("uid=0(root) gid=0(root)"));
    assert!(!is_root_shell("uid=2000(shell)"));
}

#[test]
fn the_daemon_is_read_from_what_the_device_prints() {
    assert!(is_running(Some("123\n")));
    assert!(!is_running(Some(" \n")));
    assert!(!is_running(None));
    assert_eq!(get_daemon_pid(Some("12 34")), Some(12));
    assert_eq!(get_daemon_pid(Some("x")), None);
    let status = "Name:\trealtime\nUid:\t2000\t0\t0\t0\n";
    assert_eq!(get_daemon_uid(Some(status)), Some(0));
    assert_eq!(get_daemon_uid(Some("Gid: 0 0 0 0")), None);
    assert_eq!(get_grpc_port(Some("/x/rp --daemon --grpc-port 50052")), Some(50052));
    assert_eq!(get_grpc_port(Some("/x/rp --grpc-port 70000")), None);
    assert_eq!(get_grpc_port(Some("/x/rp --grpc-port")), None);
    assert_eq!(
        daemon_low_overhead_matches(Some("rp --low-overhead --sync-only"), true),
        Some(true)
    );
    assert_eq!(daemon_low_overhead_matches(Some("rp --low-overhead"), true), Some(false));
    assert_eq!(daemon_low_overhead_matches(Some("rp"), false), Some(true));
    assert_eq!(daemon_low_overhead_matches(None, true), None);
}

#[test]
fn a_started_daemon_is_known_again() {
    for low_overhead in [true, false] {
        for mode in [RootMode::Adb, RootMode::NoRoot] {
            let command = start_command("/data/local/tmp/rp", 50052, low_overhead, mode);
            assert_eq!(get_grpc_port(Some(&command)), Some(50052));
            assert_eq!(
                daemon_low_overhead_matches(Some(&command), low_overhead),
                Some(true)
            );
        }
    }
    assert_eq!(remote_dir("/data/local/tmp/rp"), "/data/local/tmp");
    assert_eq!(remote_library("/data/rp"), "/data/libc++_shared.so");
}

fn target(local: &str) -> DeployTarget<String> {
    DeployTarget {
        serial: "s".to_string(),
        local_path: local.to_string(),
        remote_path: "/data/rp".to_string(),
        port: 50051,
        low_overhead: true,
    }
}

/// Runs a deployment against a device that answers by `reply`, and gives what
/// it was asked and how it ended.
fn deploy(
    local: &str,
    reply: impl Fn(&str) -> Option<String>,
) -> (Vec<String>, Result<(), DeployError>) {
    let t = target(local);
    let mut state = ensure_running_rooted();
    let mut asked = vec![];
    for _ in 0..100 {
        let command = match state.action(&t) {
            DeployAction::Shell(c) => c,
            DeployAction::Poll { command, .. } => command,
            DeployAction::Root => "root".to_string(),
            DeployAction::Push { local, remote } => format!("push {local} {remote}"),
            DeployAction::PushLibrary { remote, .. } => format!("library {remote}"),
            DeployAction::Finish(r) => return (asked, r),
        };
        let answer = reply(&command);
        asked.push(command);
        state = state.advance(&t, answer.as_deref(), true);
    }
    panic!("{asked:?}")
}

#[test]
fn a_rooted_daemon_in_the_right_mode_is_left_alone() {
    let (asked, r) = deploy("rp", |c| {
        Some(match c {
            "pidof realtime_profile" => "77\n".to_string(),
            "cat /proc/77/status" => "Uid:\t0\t0\t0\t0\n".to_string(),
            _ => "rp --low-overhead --sync-only --grpc-port 50051".to_string(),
        })
    });
    assert!(matches!(r, Ok(())));
    assert!(!asked.iter().any(|c| c.starts_with("pkill") || c.starts_with("push")));
}

#[test]
fn a_daemon_without_root_is_replaced() {
    let (asked, r) = deploy("rp", |c| {
        if c == "pidof realtime_profile" {
            Some("77\n".to_string())
        } else if c == "cat /proc/77/status" {
            Some("Uid:\t2000\t2000\t2000\t2000\n".to_string())
        } else {
            Some("uid=0(root)".to_string())
        }
    });
    assert!(matches!(r, Ok(())));
    let kill = asked.iter().position(|c| c == "pkill -f realtime_profile").unwrap();
    let push = asked.iter().position(|c| c == "push rp /data/rp").unwrap();
    assert!(kill < push);
    assert!(asked.contains(&"library /data/libc++_shared.so".to_string()));
    assert!(asked.contains(&"chmod +x /data/rp".to_string()));
}

#[test]
fn deployments_that_fail_say_why() {
    let (_, r) = deploy("rp", |c| if c.starts_with("push") { None } else { Some(String::new()) });
    assert_eq!(r.unwrap_err().message(), "Failed to push realtime_profile binary");
    let (_, r) = deploy("", |c| if c.starts_with("chmod") { None } else { Some(String::new()) });
    assert_eq!(r.unwrap_err().message(), "Failed to chmod realtime_profile");
    let (_, r) = deploy("rp", |_| Some(String::new()));
    assert!(matches!(r, Err(DeployError::NotAliveAfterPush)));
    let (_, r) = deploy("", |_| Some(String::new()));
    assert!(matches!(r, Err(DeployError::NotAliveWithoutBinary)));
}
