use profiler_core::bounded_queue::BoundedQueue;
use profiler_core::adb::devices::DeviceInfo;
use profiler_core::daq::config::{ChannelConfig, DaqConfig, PowerPair, Rgb};
use profiler_core::daq::error::DaqmxError;
use profiler_core::daq::summary::{DaqChannelSummary, DaqPollData, DaqSummary};
use profiler_core::double::Double;
use profiler_core::ffi::calls::{
    Exchange, profiler_get_pid, profiler_health_check, profiler_push_file, profiler_set_device_id,
    profiler_shell, profiler_start_gc, profiler_start_rtb, profiler_start_rtb_ex,
    profiler_stop_recording, profiler_input_tap, profiler_input_text, profiler_start_perfetto,
};
use profiler_core::ffi::daq::{
    DaqListing, DaqState, daq_errors_to_ffi, daq_stop_outcome, keep_config, keep_measurement,
    listing_outcome, profiler_daq_free_config, profiler_daq_get_config_info,
    profiler_daq_get_errors, profiler_daq_list_devices, profiler_daq_load_config,
    profiler_daq_poll, profiler_daq_start, profiler_daq_stop,
};
use profiler_core::ffi::device::{
    command_verdict, devices_outcome, panic_message, path_exists_to_ffi, profiler_adb_reverse,
    profiler_adb_shell, profiler_connect, profiler_deploy_and_connect, profiler_disconnect,
    profiler_get_devices, profiler_get_last_error, profiler_init, profiler_is_connected,
    profiler_wifi_adb_connect, surface_names_to_ffi, text_to_ffi,
};
use profiler_core::ffi::options::{source_start_options_from_ffi, default_rtb_options_for_mode};
use profiler_core::ffi::outcome::{Reply, conclude, control_outcome, service_outcome};
use profiler_core::ffi::records::{
    HandOver, cml_data_to_ffi, device_list_to_ffi, package_list_to_ffi, shell_result_to_ffi,
    thread_snapshot_to_ffi,
};
use profiler_core::ffi::streams::{
    CmlPoll, SourceCall, archive_verdict, keep_stream, poll_cml_queue, poll_queue,
    profiler_cml_is_finished, profiler_poll_cml,
    profiler_poll_rtb, profiler_source_profile_stop, profiler_stop_rtb, profiler_stream_tar_lz4,
    queue_capacity, source_verdict,
};
use profiler_core::ffi::types::{
    ProfilerResult, ProfilerRtbOptions, ProfilerSourceCpuSelection, ProfilerSourcePathRemap,
    ProfilerSourceStartOptions,
};
use profiler_core::grpc::streaming::StreamKind;
use profiler_core::proto::{
    CmlDataPoint, DiscoverFtraceResponse, FreqBucket, FreqDistribution, FtraceEventInfo, GpuInfo,
    PackageInfo, PmuEventInfo, Request, RtbDataPoint, RtbSummary, ShellResponse,
    SourceSpeCaptureScope, SourceSpeOperationFilterMode, ThreadSnapshot,
};
use profiler_core::runtime::{ConnectionEntry, Runtime};
use profiler_core::set_last_error;
use profiler_core::wide::{from_wide, to_wide};

type Rt = Runtime<u8, u8>;

fn runtime() -> Rt {
    let mut rt = Runtime::new();
    assert_eq!(profiler_init(&mut rt), ProfilerResult::Success);
    rt
}

fn linked(low_overhead: bool) -> Rt {
    let mut rt = runtime();
    rt.state.as_mut().unwrap().connections.insert(ConnectionEntry {
        serial: "d".to_string(),
        client: 1,
        port: 50051,
        daemon_low_overhead: low_overhead,
    });
    rt
}

fn double(value: f64) -> Double {
    Double::from_bits(value.to_bits())
}

fn w(s: &str) -> Vec<u16> {
    to_wide(s)
}

fn refusal(r: Result<Exchange, ProfilerResult>) -> ProfilerResult {
    r.err().unwrap()
}

#[test]
fn results_have_their_numbers() {
    assert_eq!(ProfilerResult::Success.code(), 0);
    assert_eq!(ProfilerResult::DeviceNotFound.code(), 1);
    assert_eq!(ProfilerResult::DaemonNotRunning.code(), 2);
    assert_eq!(ProfilerResult::ConnectionFailed.code(), 3);
    assert_eq!(ProfilerResult::OperationFailed.code(), 4);
    assert_eq!(ProfilerResult::InvalidParameter.code(), 5);
    assert_eq!(ProfilerResult::Unknown.code(), 99);
}

#[test]
fn missing_parameters_come_before_missing_connections() {
    let rt = runtime();
    let (d, p) = (w("d"), w("com.x"));
    let e = refusal(profiler_get_pid(&rt, None, Some(&p), true));
    assert_eq!(e, ProfilerResult::InvalidParameter);
    let e = refusal(profiler_get_pid(&rt, Some(&d), None, true));
    assert_eq!(e, ProfilerResult::InvalidParameter);
    let e = refusal(profiler_get_pid(&rt, Some(&d), Some(&p), false));
    assert_eq!(e, ProfilerResult::InvalidParameter);
    let e = refusal(profiler_get_pid(&rt, Some(&d), Some(&p), true));
    assert_eq!(e, ProfilerResult::DeviceNotFound);
    let empty: Rt = Runtime::new();
    let e = refusal(profiler_get_pid(&empty, None, None, true));
    assert_eq!(e, ProfilerResult::InvalidParameter);
    let gc = profiler_start_gc(&rt, Some(&d), 0, double(1.0), &Some(vec![]), true);
    assert_eq!(refusal(gc), ProfilerResult::InvalidParameter);
}

#[test]
fn requests_go_over_the_control_protocol_first() {
    let d = w("d");
    let x = profiler_get_pid(&linked(true), Some(&d), Some(&w("com.x")), true).unwrap();
    assert_eq!(x.serial, "d");
    assert_eq!(x.sync_addr, Some("127.0.0.1:50052".to_string()));
    assert!(matches!(x.call, Request::GetPid { package_name } if package_name == "com.x"));
    let x = profiler_get_pid(&linked(false), Some(&d), Some(&w("com.x")), true).unwrap();
    assert_eq!(x.sync_addr, None);
}

#[test]
fn only_some_recordings_stop_over_the_control_protocol() {
    let rt = linked(true);
    let d = w("d");
    let stop = |kind: Option<&Vec<u16>>| {
        profiler_stop_recording(&rt, Some(&d), kind).unwrap().sync_addr.is_some()
    };
    assert!(stop(None));
    assert!(stop(Some(&w("rtb"))));
    assert!(stop(Some(&w("perfetto"))));
    assert!(!stop(Some(&w("gc"))));
}

#[test]
fn streams_measure_what_goes_with_their_mode() {
    let rt = linked(true);
    let d = w("d");
    let options = |x: Exchange| match x.call {
        Request::StartRtbStream { options, .. } => options,
        other => panic!("{other:?}"),
    };
    let mperf = w("mperf");
    let o = options(
        profiler_start_rtb(&rt, Some(&d), 1, double(1.0), Some(&mperf), true).unwrap(),
    );
    assert!(o.enable_power && o.enable_fps_present_fence && !o.enable_gpu);
    assert_eq!(o, default_rtb_options_for_mode("mperf"));
    let o = options(profiler_start_rtb(&rt, Some(&d), 1, double(1.0), None, true).unwrap());
    assert!(!o.enable_power);
    let asked = ProfilerRtbOptions {
        enable_cpu_loading: true,
        enable_cpu_freq: false,
        enable_fps_dequeue: false,
        enable_fps_queue: false,
        enable_fps_present_fence: false,
        enable_gpu: true,
        use_dumpsys_fps: false,
        enable_power: false,
        enable_temperature: false,
        enable_dvfs: false,
        enable_memory: false,
        enable_total_mips: false,
        enable_thread_mips: false,
        warmup_secs: double(2.5),
    };
    let x = profiler_start_rtb_ex(&rt, Some(&d), 1, double(1.0), None, Some(asked), true);
    let o = options(x.unwrap());
    assert!(o.enable_cpu_loading && o.enable_gpu && !o.enable_power);
    assert_eq!(o.warmup_secs, double(2.5));
    assert_eq!(queue_capacity(StreamKind::Cml), 64);
    assert_eq!(queue_capacity(StreamKind::Rtb), 512);
}

fn failed(s: &str) -> Reply<String> {
    Reply::Failed(s.to_string())
}

fn status(success: bool, message: &str) -> Reply<String> {
    Reply::Status { success, message: message.to_string() }
}

#[test]
fn a_control_protocol_that_fails_leaves_it_to_the_service() {
    let rt = linked(true);
    let d = w("d");
    let x = profiler_start_perfetto(&rt, Some(&d), 1, Some(&w("m")), 5, None).unwrap();
    assert!(control_outcome(&x, failed("e")).is_none());
    let v = control_outcome(&x, status(true, "")).unwrap();
    assert_eq!((v.result, v.last_error), (ProfilerResult::Success, None));
    let v = control_outcome(&x, status(false, "busy")).unwrap();
    assert_eq!(
        v.last_error,
        Some("perfetto start rejected by sync daemon: busy".to_string())
    );
    let v = service_outcome(&x, status(false, "busy"));
    assert_eq!(v.last_error, Some("perfetto start rejected by daemon: busy".to_string()));
    let v = service_outcome(&x, failed("gone"));
    assert_eq!(v.result, ProfilerResult::OperationFailed);
    assert_eq!(
        v.last_error,
        Some("failed to start perfetto trace via gRPC: gone".to_string())
    );
}

#[test]
fn refusals_without_words_are_given_some() {
    let rt = linked(true);
    let d = w("d");
    let tap = profiler_input_tap(&rt, Some(&d), 1, 2).unwrap();
    let v = control_outcome(&tap, status(false, "  ")).unwrap();
    assert_eq!(v.last_error, Some("InputTap sync command returned failure".to_string()));
    let v = control_outcome(&tap, status(false, "off")).unwrap();
    assert_eq!(v.last_error, Some("off".to_string()));
    assert_eq!(service_outcome(&tap, status(false, "x")).result, ProfilerResult::Success);
    let text = profiler_input_text(&rt, Some(&d), Some(&w("t"))).unwrap();
    let v = service_outcome(&text, status(false, ""));
    assert_eq!(v.last_error, Some("InputText RPC returned failure".to_string()));
    let v = service_outcome(&text, failed("e"));
    assert_eq!(v.last_error, Some("InputText RPC failed: e".to_string()));
    let id = profiler_set_device_id(&rt, Some(&d), Some(&w("1"))).unwrap();
    let v = control_outcome(&id, status(false, "no")).unwrap();
    assert_eq!(v.last_error, Some("no".to_string()));
    let shell = profiler_shell(&rt, Some(&d), Some(&w("ls")), true).unwrap();
    let v = service_outcome(&shell, failed("e"));
    assert_eq!(
        v.last_error,
        Some("profiler_shell failed. command='ls', error=e".to_string())
    );
    let push = profiler_push_file(&rt, Some(&d), Some(&w("a")), Some(&w("/b"))).unwrap();
    let v = service_outcome(&push, failed("e"));
    assert_eq!(
        v.last_error,
        Some("profiler_push_file failed. local='a', remote='/b', error=e".to_string())
    );
}

#[test]
fn a_dead_connection_is_forgotten() {
    let mut rt = linked(true);
    let d = w("d");
    let x = profiler_health_check(&rt, Some(&d), true).unwrap();
    assert!(control_outcome(&x, failed("e")).is_none());
    let v = service_outcome(&x, failed("e"));
    assert_eq!(conclude(&mut rt, &x, v), ProfilerResult::DaemonNotRunning);
    assert!(!profiler_is_connected(&rt, Some(&d)));
    let e = refusal(profiler_health_check(&rt, Some(&d), true));
    assert_eq!(e, ProfilerResult::DeviceNotFound);
}

#[test]
fn errors_are_remembered_for_the_caller() {
    let mut rt = linked(true);
    let x = profiler_set_device_id(&rt, Some(&w("d")), Some(&w("1"))).unwrap();
    let v = service_outcome(&x, status(false, "denied"));
    assert_eq!(conclude(&mut rt, &x, v), ProfilerResult::OperationFailed);
    assert_eq!(profiler_get_last_error(&mut rt), Some(w("denied")));
    assert_eq!(profiler_get_last_error(&mut rt), None);
    set_last_error(&mut rt, String::new());
    assert_eq!(profiler_get_last_error(&mut rt), None);
}

#[test]
fn connections_need_a_name() {
    assert_eq!(profiler_connect(None).err(), Some(ProfilerResult::InvalidParameter));
    assert_eq!(profiler_connect(Some(&w(""))).err(), Some(ProfilerResult::InvalidParameter));
    let p = profiler_connect(Some(&w("d"))).unwrap();
    assert_eq!((p.serial.as_str(), p.port, p.deploy, p.strict), ("d", 50051, false, false));
    let p = profiler_deploy_and_connect(Some(&w("d")), None, Some(&w("/r")), 7).unwrap();
    assert!(p.deploy && p.low_overhead);
    assert_eq!((p.local_path.as_str(), p.remote_path.as_str()), ("", "/r"));
    let r = profiler_deploy_and_connect(Some(&w("d")), None, None, 7);
    assert_eq!(r.err(), Some(ProfilerResult::InvalidParameter));
    let mut rt = linked(false);
    let d = w("d");
    assert_eq!(profiler_disconnect(&mut rt, None), ProfilerResult::InvalidParameter);
    assert_eq!(profiler_disconnect(&mut rt, Some(&d)), ProfilerResult::Success);
    assert_eq!(profiler_disconnect(&mut rt, Some(&d)), ProfilerResult::DeviceNotFound);
}

#[test]
fn commands_need_the_runtime() {
    let (d, ls) = (w("d"), w("ls"));
    let empty: Rt = Runtime::new();
    let r = profiler_adb_shell(&empty, Some(&d), Some(&ls), true);
    assert_eq!(r.err(), Some(ProfilerResult::OperationFailed));
    let r = profiler_adb_shell(&empty, None, Some(&ls), true);
    assert_eq!(r.err(), Some(ProfilerResult::InvalidParameter));
    let rt = runtime();
    let c = profiler_adb_shell(&rt, Some(&d), Some(&ls), true).unwrap();
    assert_eq!(c.args(), vec!["-s", "d", "shell", "ls"]);
    let (v, out) = command_verdict(&c, Ok("x".to_string()));
    assert_eq!((v.result, out), (ProfilerResult::Success, Some(w("x"))));
    let (v, out) = command_verdict(&c, Err("e".to_string()));
    assert_eq!((v.last_error, out), (None, None));
    let r = profiler_adb_reverse(&rt, Some(&d), 0, 1);
    assert_eq!(r.err(), Some(ProfilerResult::InvalidParameter));
    let c = profiler_adb_reverse(&rt, Some(&d), 2, 1).unwrap();
    let (v, _) = command_verdict(&c, Err("e".to_string()));
    assert_eq!(v.last_error, Some("profiler_adb_reverse failed: e".to_string()));
    let wifi = profiler_wifi_adb_connect(&rt, Some(&d), Some(&w("1.2.3.4")), 5555, true).unwrap();
    assert_eq!(wifi.connect.args(), vec!["connect", "1.2.3.4:5555"]);
    let (v, _) = command_verdict(&wifi.listen, Err("e".to_string()));
    assert_eq!(v.last_error, Some("adb tcpip failed: e".to_string()));
    assert_eq!(panic_message("f", Some("p")), "f panicked: p");
    assert_eq!(panic_message("f", None), "f panicked (unknown payload)");
    let names = vec!["a".to_string(), "b".to_string()];
    assert_eq!(surface_names_to_ffi(&Some(names)), Some(w("a\nb")));
    assert_eq!(surface_names_to_ffi(&None), None);
    assert_eq!(text_to_ffi(&Some("v".to_string())), Some(w("v")));
    assert_eq!(text_to_ffi(&None), None);
    assert!(path_exists_to_ffi(Some(true)));
    assert!(!path_exists_to_ffi(None));
}

#[test]
fn streams_are_kept_and_stopped_once() {
    let mut rt = linked(true);
    let state = rt.state.as_mut().unwrap();
    let id = keep_stream(state, StreamKind::Rtb, 9);
    assert_eq!(id, 1);
    let found = |_: &u8| Some(RtbDataPoint { timestamp_ms: 4, ..RtbDataPoint::default() });
    let data = profiler_poll_rtb(state, id, true, found).unwrap();
    assert_eq!(data.timestamp_ms, 4);
    assert_eq!(data.process_name, None);
    assert!(profiler_poll_rtb(state, id, false, found).is_none());
    assert!(profiler_poll_rtb(state, id + 1, true, found).is_none());
    assert!(profiler_poll_rtb(state, id, true, |_: &u8| None).is_none());
    assert_eq!(profiler_stop_rtb(state, id), (ProfilerResult::Success, Some(9)));
    assert_eq!(profiler_stop_rtb(state, id), (ProfilerResult::InvalidParameter, None));
    let id = keep_stream(state, StreamKind::Cml, 8);
    let polled =
        profiler_poll_cml(state, id, true, |_: &u8| CmlPoll { finished: true, point: None });
    let polled = polled.unwrap();
    assert!(!polled.available && polled.data.is_finished);
    assert!(profiler_cml_is_finished(None));
    assert!(!profiler_cml_is_finished(Some(false)));
    let point = CmlDataPoint { footprint_kb: 64, cpus: vec![] };
    assert_eq!(cml_data_to_ffi(&Some(point), false).footprint_kb, 64);
}

#[test]
fn archives_need_the_control_protocol() {
    let (d, a) = (w("d"), w("a"));
    let r = profiler_stream_tar_lz4(&linked(true), Some(&d), Some(&a), Some(&a), Some(&a));
    let x = r.unwrap();
    assert_eq!((x.sync_addr.as_str(), x.target), ("127.0.0.1:50052", Some("a".to_string())));
    let r = profiler_stream_tar_lz4(&linked(false), Some(&d), Some(&a), Some(&a), Some(&a));
    assert_eq!(
        r.err().unwrap().last_error,
        Some("sync control is required for lz4 archive stream".to_string())
    );
    let r = profiler_stream_tar_lz4(&linked(true), Some(&d), Some(&a), None, Some(&a));
    assert_eq!(r.err().unwrap().result, ProfilerResult::InvalidParameter);
    assert_eq!(archive_verdict(Some("e".to_string())).last_error, Some("e".to_string()));
    assert_eq!(archive_verdict(None).result, ProfilerResult::Success);
}

#[test]
fn source_profiles_are_asked_for_as_the_caller_says() {
    let o = ProfilerSourceStartOptions {
        package_name: Some(w("com.x")),
        pid: 3,
        cpu_selection: ProfilerSourceCpuSelection {
            all_cpus: false,
            cpus: Some(vec![1, 2]),
            clusters: Some(vec![Some(w("big")), None, Some(w(""))]),
        },
        enable_pmu: true,
        enable_spe: false,
        duration_ms: 10,
        pmu_buffer_pages: 1,
        pmu_max_output_bytes: 2,
        spe_aux_buffer_bytes: 3,
        spe_max_output_bytes: 4,
        spe_ring_buffer_pages: 5,
        spe_capture_scope: 1,
        spe_operation_filter: 7,
        sample_period: 6,
        callchain_depth: 7,
        output_remote_root: None,
        requested_event_keys: None,
        debug_elf_hints: Some(vec![Some(w("a.elf"))]),
        source_root_hints: None,
        path_remaps: Some(vec![ProfilerSourcePathRemap { from: Some(w("/a")), to: None }]),
        bundle_device_debug_elfs: true,
    };
    let r = source_start_options_from_ffi(&o);
    assert_eq!(r.package_name, "com.x");
    assert_eq!(r.cpu_selection.cpus, vec![1, 2]);
    assert_eq!(r.cpu_selection.clusters, vec!["big"]);
    assert_eq!(r.spe_capture_scope, SourceSpeCaptureScope::CpuOnlySystemWide);
    assert_eq!(r.spe_operation_filter, SourceSpeOperationFilterMode::AllOps);
    assert_eq!(r.output_remote_root, "");
    assert_eq!(r.debug_elf_hints, vec!["a.elf"]);
    assert_eq!((r.path_remaps[0].from.as_str(), r.path_remaps[0].to.as_str()), ("/a", ""));
    let x = profiler_source_profile_stop(&linked(false), Some(&w("d")), Some(&w("s")), None, true);
    assert_eq!(x.unwrap().request.session_id, "s");
    let v = source_verdict(SourceCall::Stop, Some("e".to_string()));
    assert_eq!(v.last_error, Some("source profile stop failed: e".to_string()));
    let v = source_verdict(SourceCall::PullBundle, Some("e".to_string()));
    assert_eq!(v.last_error, Some("pull source bundle failed: e".to_string()));
}

fn snapshot(tid: i32) -> ThreadSnapshot {
    ThreadSnapshot {
        tid,
        tgid: 1,
        name: "t".to_string(),
        loading_pct: double(1.0),
        c0_pct: double(2.0),
        c1_pct: double(3.0),
        c2_pct: double(4.0),
        runnable_pct: double(5.0),
        mips: double(6.0),
        mcps: double(7.0),
        cpi: double(8.0),
    }
}

#[test]
fn summaries_are_handed_over_whole() {
    let s = RtbSummary {
        top_threads: vec![snapshot(5)],
        freq_distributions: vec![FreqDistribution {
            component: "gpu".to_string(),
            buckets: vec![FreqBucket { freq_mhz: 1, count: 2, percentage: double(3.0) }],
        }],
        logical_thread: Some(snapshot(6)),
        render_thread: None,
        rhi_thread: None,
        start_temp: double(30.0),
        end_temp: double(31.0),
        frame_times_ms: vec![],
        vsync_sf_buckets: vec![],
        vsync_sf_base_interval_ms: double(16.0),
    };
    let h = s.hand_over();
    assert_eq!(h.top_threads[0].tid, 5);
    assert_eq!(h.top_threads[0].name, Some(w("t")));
    assert_eq!(h.freq_distributions[0].component, w("gpu"));
    assert_eq!(h.freq_distributions[0].buckets[0].count, 2);
    assert_eq!(h.logical_thread.tid, 6);
    assert_eq!(h.render_thread.tid, 0);
    assert_eq!(h.render_thread.name, None);
    assert_eq!(h.end_temp, double(31.0));
    assert_eq!(thread_snapshot_to_ffi(&None).cpi, double(0.0));
}

#[test]
fn messages_are_handed_over_field_by_field() {
    let d = DeviceInfo {
        serial: "s".to_string(),
        model: "m".to_string(),
        state: "device".to_string(),
        product: "p".to_string(),
        device_name: "n".to_string(),
    };
    let list = device_list_to_ffi(&Some(vec![d]));
    assert_eq!(from_wide(Some(&list.devices[0].device_name)), "n");
    assert_eq!(device_list_to_ffi(&None).devices.len(), 0);
    let p = PackageInfo {
        package_name: "com.x".to_string(),
        apk_path: "/a".to_string(),
        version_name: "1".to_string(),
        app_label: "X".to_string(),
        version_code: 7,
        pid: 8,
    };
    let list = package_list_to_ffi(&Some(vec![p]));
    assert_eq!((list.packages[0].version_code, list.packages[0].pid), (7, 8));
    assert_eq!(package_list_to_ffi(&None).packages.len(), 0);
    let ok = ShellResponse { exit_code: 3, stdout: "o".to_string(), stderr: String::new() };
    let r = shell_result_to_ffi(&Some(ok));
    assert_eq!((r.exit_code, r.stdout, r.stderr), (3, Some(w("o")), Some(w(""))));
    let r = shell_result_to_ffi(&None);
    assert_eq!((r.exit_code, r.stdout, r.stderr), (-1, None, None));
    let g = GpuInfo {
        device_number: 1,
        gpu_family: "mali".to_string(),
        num_shader_cores: 2,
        num_execution_engines: 3,
        bus_width: 4,
        product_id: 5,
    };
    assert_eq!(g.hand_over().num_exec_engines, 3);
    let f = DiscoverFtraceResponse {
        events: vec![FtraceEventInfo {
            category: "sched".to_string(),
            event_name: "switch".to_string(),
        }],
        ready: true,
    };
    let f = f.hand_over();
    assert_eq!((f.ready, f.events[0].event_name.clone()), (1, w("switch")));
    let e = PmuEventInfo {
        index: 1,
        name: "n".to_string(),
        code: 0x11,
        category: "c".to_string(),
        description: String::new(),
        is_core: false,
        is_supported: true,
    };
    let e = e.hand_over();
    assert_eq!((e.is_core, e.is_supported, e.code), (0, 1, 0x11));
}

fn channel(place: &str, name: &str) -> ChannelConfig<String> {
    ChannelConfig {
        physical_channel: place.to_string(),
        name: name.to_string(),
        gain: double(1.0),
        offset: double(0.0),
        order: None,
        range_max: None,
        range_min: None,
        color: Rgb::new(0, 0, 0),
    }
}

#[test]
fn configurations_are_kept_by_number() {
    let mut s: DaqState<u8> = DaqState::new();
    let path = w("c.xlsx");
    assert_eq!(profiler_daq_load_config(Some(&path), true).unwrap(), "c.xlsx");
    assert!(profiler_daq_load_config(None, true).is_err());
    let (v, id) = keep_config(&mut s, Err("e".to_string()));
    assert_eq!(v.last_error, Some("Failed to load DAQ config: e".to_string()));
    assert_eq!(id, None);
    let config = DaqConfig {
        channels: vec![channel("Dev1/ai0", "V"), channel("Dev1/ai1", "I")],
        power_pairs: vec![
            PowerPair {
                index: 1,
                current_channel: "I".to_string(),
                voltage_channel: "Dev1/ai0".to_string(),
            },
            PowerPair {
                index: 2,
                current_channel: "I".to_string(),
                voltage_channel: "other".to_string(),
            },
        ],
        has_order: false,
        has_range: false,
    };
    let (_, id) = keep_config(&mut s, Ok(config));
    let id = id.unwrap();
    let info = profiler_daq_get_config_info(&s, id, true).unwrap();
    assert_eq!(info.channel_names, vec![w("V"), w("I")]);
    assert_eq!(info.power_pair_names, vec![w("V"), w("other")]);
    let e = profiler_daq_get_config_info(&s, 99, true).err().unwrap();
    assert_eq!(e.last_error, Some("Invalid config handle".to_string()));
    let start = profiler_daq_start(&s, id, Some(&w("o.csv")), true).unwrap();
    assert_eq!(start.output_path, Some("o.csv".to_string()));
    assert_eq!(start.config.channels.len(), 2);
    assert!(profiler_daq_start(&s, id, None, false).is_err());
    profiler_daq_free_config(&mut s, id);
    assert!(profiler_daq_start(&s, id, None, true).is_err());
}

#[test]
fn measurements_are_stopped_once() {
    let mut s: DaqState<u8> = DaqState::new();
    let (v, _) = keep_measurement(&mut s, Err("e".to_string()));
    assert_eq!(v.last_error, Some("Failed to start DAQ: e".to_string()));
    let id = keep_measurement(&mut s, Ok(5)).1.unwrap();
    assert_eq!(profiler_daq_get_errors(&s, id, true).ok(), Some(&5));
    assert!(profiler_daq_get_errors(&s, id, false).is_err());
    assert_eq!(daq_errors_to_ffi(&vec!["e".to_string()]).messages, vec![w("e")]);
    assert!(profiler_daq_stop(&mut s, id, false).is_err());
    assert_eq!(profiler_daq_stop(&mut s, id, true).ok(), Some(5));
    let e = profiler_daq_stop(&mut s, id, true).err().unwrap();
    assert_eq!(e.last_error, Some("Invalid DAQ handle".to_string()));
    let (v, out) = daq_stop_outcome(Err("e".to_string()));
    assert_eq!(v.last_error, Some("DAQ stop failed: e".to_string()));
    assert!(out.is_none());
    let summary = DaqSummary {
        channels: vec![DaqChannelSummary {
            name: "V".to_string(),
            mean: double(1.0),
            min: double(0.0),
            max: double(2.0),
            rms: double(1.0),
            color_r: 0x12,
            color_g: 0x34,
            color_b: 0x56,
            is_current: true,
            pair_index: -1,
        }],
        power_breakdown: vec![],
        total_power_mw: double(0.0),
        measurement_time_s: double(3.0),
    };
    let out = daq_stop_outcome(Ok(summary)).1.unwrap();
    assert_eq!(out.channels[0].color_rgb, 0x123456);
    assert_eq!((out.channels[0].is_current, out.channels[0].pair_index), (1, -1));
    let d = DaqPollData {
        timestamp_ms: 9,
        power_pairs: vec![("P".to_string(), double(1.0))],
        channel_values: vec![],
    };
    let d = d.hand_over();
    assert_eq!((d.power_names, d.power_values), (vec![w("P")], vec![double(1.0)]));
}

#[test]
fn no_devices_is_no_failure() {
    let (v, list) = listing_outcome(&DaqListing::Listed(Err(DaqmxError::NoDevices)));
    assert_eq!(v.result, ProfilerResult::Success);
    assert_eq!(list.unwrap().devices.len(), 0);
    let gone = DaqmxError::LibraryNotFound("x".to_string());
    let (v, list) = listing_outcome(&DaqListing::NoDriver(gone));
    assert_eq!(v.last_error, Some("DAQmx library not found: x".to_string()));
    assert!(list.is_none());
    let bad = DaqmxError::DaqmxCall { code: -1, message: "m".to_string() };
    let (v, _) = listing_outcome(&DaqListing::Listed(Err(bad)));
    assert_eq!(
        v.last_error,
        Some("Device enumeration failed: DAQmx error (code -1): m".to_string())
    );
}

#[test]
fn measuring_devices_are_listed_where_there_is_room_for_them() {
    let asked = std::cell::Cell::new(0);
    let list = || {
        asked.set(asked.get() + 1);
        DaqListing::Listed(Err(DaqmxError::NoDevices))
    };
    let (v, given) = profiler_daq_list_devices(false, &list);
    assert_eq!((v.result, v.last_error), (ProfilerResult::InvalidParameter, None));
    assert!(given.is_none());
    assert_eq!(asked.get(), 0);
    let (v, given) = profiler_daq_list_devices(true, &list);
    assert_eq!(v.result, ProfilerResult::Success);
    assert_eq!(given.unwrap().devices.len(), 0);
    assert_eq!(asked.get(), 1);
}

#[test]
fn devices_are_listed_where_there_is_room_for_them() {
    assert_eq!(profiler_get_devices(true).unwrap().args(), vec!["devices", "-l"]);
    assert_eq!(profiler_get_devices(false).err(), Some(ProfilerResult::InvalidParameter));
    let device = DeviceInfo {
        serial: "s".to_string(),
        model: "m".to_string(),
        state: "device".to_string(),
        product: "p".to_string(),
        device_name: "n".to_string(),
    };
    let (result, list) = devices_outcome(&Some(vec![device]));
    assert_eq!(result, ProfilerResult::Success);
    assert_eq!(list.devices[0].serial, w("s"));
    assert_eq!(list.devices[0].device_name, w("n"));
    let (result, list) = devices_outcome(&None);
    assert_eq!(result, ProfilerResult::OperationFailed);
    assert!(list.devices.is_empty());
}

#[test]
fn a_poll_takes_the_oldest_sample_and_no_other() {
    let at = |ms| RtbDataPoint { timestamp_ms: ms, ..RtbDataPoint::default() };
    let mut q = BoundedQueue::new(4);
    assert!(poll_queue(&mut q).is_none());
    q.push_latest(at(1));
    q.push_latest(at(2));
    assert_eq!(poll_queue(&mut q).unwrap().timestamp_ms, 1);
    assert_eq!(poll_queue(&mut q).unwrap().timestamp_ms, 2);
    assert!(poll_queue(&mut q).is_none());

    let mut q = BoundedQueue::new(4);
    q.push_latest(CmlDataPoint { footprint_kb: 64, cpus: vec![] });
    let w = poll_cml_queue(&mut q, false);
    assert!(w.available && !w.data.is_finished);
    assert_eq!(w.data.footprint_kb, 64);
    let w = poll_cml_queue(&mut q, true);
    assert!(!w.available && w.data.is_finished);

    let mut rt = linked(true);
    let state = rt.state.as_mut().unwrap();
    let id = keep_stream(state, StreamKind::Rtb, 9);
    let queue = std::cell::RefCell::new(BoundedQueue::new(4));
    queue.borrow_mut().push_latest(at(5));
    queue.borrow_mut().push_latest(at(6));
    let poll = |_: &u8| queue.borrow_mut().poll();
    assert!(profiler_poll_rtb(state, id, false, poll).is_none());
    assert_eq!(profiler_poll_rtb(state, id, true, poll).unwrap().timestamp_ms, 5);
    assert_eq!(profiler_poll_rtb(state, id, true, poll).unwrap().timestamp_ms, 6);
    assert!(profiler_poll_rtb(state, id, true, poll).is_none());
}

#[test]
fn measurements_are_polled_by_number() {
    let mut s: DaqState<u64> = DaqState::new();
    assert!(s.streams.has_next_id());
    let id = keep_measurement(&mut s, Ok(7)).1.unwrap();
    let poll = |h: &u64| {
        Some(DaqPollData {
            timestamp_ms: *h,
            power_pairs: vec![("P".to_string(), double(1.5))],
            channel_values: vec![],
        })
    };
    let data = profiler_daq_poll(&s, id, true, poll).unwrap();
    assert_eq!(data.timestamp_ms, 7);
    assert_eq!(data.power_names, vec![w("P")]);
    assert_eq!(data.power_values, vec![double(1.5)]);
    assert!(profiler_daq_poll(&s, id, false, poll).is_none());
    assert!(profiler_daq_poll(&s, id + 1, true, poll).is_none());
    assert!(profiler_daq_poll(&s, id, true, |_: &u64| None).is_none());
}
