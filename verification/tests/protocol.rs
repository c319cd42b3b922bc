use profiler_core::grpc::client::{
    Carriage, PullProgress, SOURCE_STATE_DONE, SOURCE_STATE_FAILED, SourceSession, SourceStep,
    carriage, check_source_settings, procedure, procedure_failed, procedure_path,
};
use profiler_core::grpc::frame::{
    ReplyStep, SyncError, command_bytes, read_reply, read_status, write_message,
};
use profiler_core::grpc::streaming::{
    StreamAction, StreamEvent, StreamKind, counts_as_finished, ended_event, next_action, read_frame,
    read_start, stream_kind,
};
use profiler_core::grpc::sync_control::{
    COMMAND_TIMEOUT_SECS, FILE_TIMEOUT_SECS, PushProgress, ReceiveProgress, SYNC_CMD_HEALTH,
    SYNC_CMD_PULL_FILE, UPLOAD_PART, get_pid, get_screen_size, push_outcome, push_report,
    screen_size, screenshot, set_device_id, sync_call,
};
use profiler_core::proto::{Request, ScreenSizeResponse};

fn message(step: ReplyStep<Vec<u8>, SyncError<String>>) -> Vec<u8> {
    match step {
        ReplyStep::Message(m) => m,
        other => panic!("{other:?}"),
    }
}

fn failure(step: ReplyStep<Vec<u8>, SyncError<String>>) -> String {
    match step {
        ReplyStep::Failed(e) => e.message(),
        other => panic!("{other:?}"),
    }
}

fn needed(step: ReplyStep<Vec<u8>, SyncError<String>>) -> usize {
    match step {
        ReplyStep::Need(n) => n,
        other => panic!("{other:?}"),
    }
}

#[test]
fn commands_are_framed() {
    assert_eq!(command_bytes(7, &vec![1, 2, 3]), vec![7, 0, 0, 0, 3, 1, 2, 3]);
    let mut out = vec![9];
    write_message(&mut out, &vec![0; 258]);
    assert_eq!(out[..5], [9, 0, 0, 1, 2]);
}

#[test]
fn replies_read_back_byte_by_byte() {
    let mut reply = vec![0u8];
    write_message(&mut reply, &vec![5, 6]);
    let mut got: Vec<u8> = vec![];
    loop {
        match read_reply(&got) {
            ReplyStep::Need(n) => {
                assert!(n > got.len());
                got = reply[..n].to_vec();
            }
            step => {
                assert_eq!(message(step), vec![5, 6]);
                break;
            }
        }
    }
}

#[test]
fn refusals_read_back() {
    let mut reply = vec![1u8];
    write_message(&mut reply, &b"no \xff".to_vec());
    assert_eq!(failure(read_reply(&reply)), "sync command rejected: no \u{fffd}");
    assert_eq!(needed(read_reply(&vec![1, 0, 0])), 5);
    assert_eq!(
        failure(read_reply(&vec![1, 0xff, 0xff, 0xff, 0xff])),
        "sync error message too large: 4294967295"
    );
    assert_eq!(
        failure(read_reply(&vec![0, 0xff, 0xff, 0xff, 0xff])),
        "sync response too large: 4294967295"
    );
}

#[test]
fn requests_have_codes() {
    let call = get_pid("127.0.0.1:1", "com.x");
    assert_eq!((call.addr.as_str(), call.opcode), ("127.0.0.1:1", 3));
    match call.request {
        Request::GetPid { package_name } => assert_eq!(package_name, "com.x"),
        other => panic!("{other:?}"),
    }
    assert_eq!(screenshot("a", 80).opcode, 33);
    assert_eq!(set_device_id("a", "x").opcode, 42);
}

#[test]
fn streams_start_or_say_why_not() {
    assert_eq!(needed(read_start(StreamKind::Cr, &vec![])), 1);
    assert_eq!(message(read_start(StreamKind::Cr, &vec![0])), Vec::<u8>::new());
    let mut refused = vec![1u8];
    write_message(&mut refused, &b"busy".to_vec());
    assert_eq!(failure(read_start(StreamKind::Gc, &refused)), "sync GC start rejected: busy");
    assert_eq!(
        failure(read_start(StreamKind::Rtb, &vec![1, 0x7f, 0, 0, 0])),
        "sync RTB error message too large: 2130706432"
    );
    assert_eq!(StreamKind::Cml.opcode(), 40);
    assert_eq!(StreamKind::Tc.thread_name(), "tc-sync-client");
}

#[test]
fn frames_read_back() {
    let mut frame = vec![];
    write_message(&mut frame, &vec![1, 2]);
    assert_eq!(message(read_frame(StreamKind::Rtb, &frame)), vec![1, 2]);
    assert_eq!(
        failure(read_frame(StreamKind::Rtb, &vec![0, 0, 0, 0])),
        "invalid sync RTB frame length: 0"
    );
    assert_eq!(
        failure(read_frame(StreamKind::Tc, &vec![0xff, 0, 0, 0])),
        "invalid sync stream frame length: 4278190080"
    );
}

#[test]
fn readers_stop_when_nothing_can_follow() {
    assert_eq!(next_action(StreamEvent::Frame), StreamAction::Queue);
    assert_eq!(next_action(StreamEvent::Idle), StreamAction::Wait);
    assert_eq!(next_action(StreamEvent::Closed), StreamAction::Stop);
    assert_eq!(next_action(StreamEvent::Fault), StreamAction::Stop);
    assert_eq!(next_action(StreamEvent::Cancelled), StreamAction::Stop);
    assert!(counts_as_finished(StreamKind::Cml, false, StreamEvent::Closed));
    assert!(!counts_as_finished(StreamKind::Cml, false, StreamEvent::Cancelled));
    assert!(!counts_as_finished(StreamKind::Rtb, false, StreamEvent::Closed));
    assert!(counts_as_finished(StreamKind::Rtb, true, StreamEvent::Cancelled));
}

#[test]
fn the_width_of_the_screen_comes_first() {
    let call = get_screen_size("127.0.0.1:50052");
    assert_eq!((call.addr.as_str(), call.opcode), ("127.0.0.1:50052", 10));
    let response = ScreenSizeResponse { width: 1080, height: 2400 };
    assert_eq!(screen_size(&response), (1080, 2400));
}

#[test]
fn files_come_in_parts() {
    let mut p = ReceiveProgress::new();
    let step = p.take(10, false);
    assert_eq!((step.report, step.finished), (Some((10, 0)), None));
    let step = p.take(0, true);
    assert_eq!((step.report, step.finished), (None, Some((10, 10))));

    let mut p = PullProgress::new();
    let step = p.take(0, false);
    assert_eq!((step.done, step.total, step.stop), (0, 0, false));
    let step = p.take(4, true);
    assert_eq!((step.done, step.total, step.stop), (4, 0, true));
    assert_eq!((p.finish().done, p.finish().total), (4, 0));
}

#[test]
fn only_the_last_part_of_a_file_is_marked() {
    let mut p = PushProgress::new(5);
    assert_eq!(p.wanted(), Some(UPLOAD_PART));
    let a = p.next("/r", vec![1, 2, 3]).unwrap();
    assert!(!a.chunk.is_last);
    assert_eq!(a.report, Some((3, 5)));
    let b = p.next("/r", vec![4, 5]).unwrap();
    assert!(b.chunk.is_last);
    assert_eq!(b.chunk.remote_path, "/r");
    assert_eq!(b.chunk.data, vec![4, 5]);
    assert_eq!(b.report, Some((5, 5)));
    assert_eq!(p.wanted(), None);
}

#[test]
fn an_empty_file_is_one_empty_part() {
    let mut p = PushProgress::new(0);
    assert_eq!(p.wanted(), Some(0));
    let empty = p.next("/r", vec![]).unwrap();
    assert!(empty.chunk.is_last && empty.chunk.data.is_empty() && empty.report.is_none());
    assert_eq!(empty.chunk.remote_path, "/r");
    assert_eq!(p.wanted(), None);
}

#[test]
fn a_file_that_shrinks_ends_where_nothing_is_left() {
    let mut p = PushProgress::new(65537);
    assert_eq!(p.wanted(), Some(65536));
    let a = p.next("/r", vec![7; 65536]).unwrap();
    assert!(!a.chunk.is_last);
    assert_eq!(p.wanted(), Some(65536));
    assert!(p.next("/r", vec![]).is_none());
    assert_eq!(p.wanted(), None);
}

#[test]
fn what_the_daemon_stored_is_reported_last() {
    assert_eq!(push_report(true, 5), Some((5, 5)));
    assert_eq!(push_report(false, 3), None);
    assert_eq!(push_outcome(true, 5).ok(), Some(5));
    assert_eq!(
        push_outcome(false, 3).err().unwrap().message(),
        "sync push failed after 3 bytes"
    );
}

#[test]
fn source_profiles_end_one_way_or_the_other() {
    let mut s = SourceSession { remote_bundle: "/a".to_string() };
    assert!(matches!(s.look(1, "", ""), SourceStep::Wait));
    assert_eq!(s.remote_bundle, "/a");
    assert!(matches!(s.look(SOURCE_STATE_DONE, "/b", ""), SourceStep::Fetch));
    assert_eq!(s.remote_bundle, "/b");
    match s.look(SOURCE_STATE_FAILED, "", "disk full") {
        SourceStep::Fail(m) => assert_eq!(m, "source profile session failed: disk full"),
        other => panic!("{other:?}"),
    }
}

#[test]
fn source_settings_are_checked_in_order() {
    let says = |p: &str, pid, d, s, b| check_source_settings(p, pid, d, s, b).err();
    assert_eq!(says("", 0, 1, 1, 1), Some("--package or --pid is required".to_string()));
    assert_eq!(says("x", 0, 0, 0, 1), Some("--duration-ms must be > 0".to_string()));
    assert_eq!(says("", 3, 1, 0, 1), Some("--sample-period must be > 0".to_string()));
    assert_eq!(says("x", 0, 1, 1, 0), Some("--pmu-buffer-pages must be > 0".to_string()));
    assert_eq!(says("x", 0, 1, 1, 1), None);
}

#[test]
fn a_status_is_read_apart_from_what_follows() {
    assert_eq!(needed(read_status(&vec![])), 1);
    assert_eq!(message(read_status(&vec![0])), Vec::<u8>::new());
    assert_eq!(needed(read_status(&vec![1])), 5);
    assert_eq!(needed(read_status(&vec![1, 0, 0, 0, 2])), 7);
    assert_eq!(failure(read_status(&vec![1, 0, 0, 0, 2, 110, 111])), "sync command rejected: no");
}

#[test]
fn every_request_but_a_stream_has_a_command() {
    let call = sync_call("a:1", Request::Health).unwrap();
    assert_eq!(call.addr, "a:1");
    assert_eq!(call.opcode, SYNC_CMD_HEALTH);
    assert_eq!(call.timeout_secs, COMMAND_TIMEOUT_SECS);
    let call = sync_call("a:1", Request::PullFile { remote_path: "/p".to_string() }).unwrap();
    assert_eq!(call.opcode, SYNC_CMD_PULL_FILE);
    assert_eq!(call.timeout_secs, FILE_TIMEOUT_SECS);
    let cml = Request::StartCmlStream { cpus: vec![], max_footprint_kb: 2, min_footprint_kb: 1 };
    assert_eq!(stream_kind(&cml), Some(StreamKind::Cml));
    assert_eq!(stream_kind(&Request::Health), None);
    assert!(sync_call("a:1", cml).is_none());
    for code in [1, 38, 39, 40, 41] {
        assert_ne!(call.opcode, code);
    }
    assert_eq!(StreamKind::Gc.opcode(), 41);
}

#[test]
fn procedures_of_the_service() {
    assert_eq!(procedure(&Request::GetTopApp), "GetTopApp");
    assert_eq!(procedure_path("Health"), "/mprofiler.ProfilerService/Health");
    assert_eq!(procedure_failed("GetPid"), "GetPid RPC failed");
    assert_eq!(carriage(&Request::Health), Carriage::Message);
    assert_eq!(carriage(&Request::Screenshot { quality: 1 }), Carriage::FileFromDevice);
    let push = Request::PushFile { remote_path: "/p".to_string() };
    assert_eq!(carriage(&push), Carriage::FileToDevice);
    let cml = Request::StartCmlStream { cpus: vec![], max_footprint_kb: 2, min_footprint_kb: 1 };
    assert_eq!(carriage(&cml), Carriage::Samples);
}

#[test]
fn a_stream_may_end_between_frames_only() {
    assert_eq!(ended_event(&vec![]), StreamEvent::Closed);
    assert_eq!(ended_event(&vec![0, 0, 0]), StreamEvent::Closed);
    assert_eq!(ended_event(&vec![0, 0, 0, 9]), StreamEvent::Fault);
}
