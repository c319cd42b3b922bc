//! The messages that the daemon and this library exchange.
use vstd::prelude::*;
use crate::double::{Double, Single};

verus! {

/// One sample of the real-time benchmark stream.
#[derive(Debug, Clone)]
pub struct RtbDataPoint {
    pub timestamp_ms: u64,
    pub fps: Double,
    pub fps_dequeue: Double,
    pub fps_queue: Double,
    pub fps_present_fence: Double,
    pub power_mw: Double,
    pub power_ma: Double,
    pub voltage_v: Double,
    pub board_temp_c: Double,
    pub battery_temp_c: Double,
    pub gpu_freq_mhz: Double,
    pub gpu_loading_pct: Double,
    pub bcpu_freq_mhz: Double,
    pub bcpu_usage_pct: Double,
    pub mcpu_freq_mhz: Double,
    pub mcpu_usage_pct: Double,
    pub lcpu_freq_mhz: Double,
    pub lcpu_usage_pct: Double,
    pub cpu_freqs_mhz: Vec<Double>,
    pub cpu_usages_pct: Vec<Double>,
    pub total_mips: Double,
    pub game_mips: Double,
    pub logical_mips: Double,
    pub render_mips: Double,
    pub rhi_mips: Double,
    pub dsu_freq_mhz: Double,
    pub dram_freq_mhz: Double,
    pub vcore_v: Double,
    pub wss_kb: u64,
    pub pss_kb: u64,
    pub top_app_rss_kb: u64,
    pub frame_times_ms: Vec<Single>,
    pub cpu_time_ms: Double,
    pub gpu_time_ms: Double,
    pub power_avg_mw: Double,
    pub process_name: String,
    pub mem_total_kb: u64,
    pub mem_available_kb: u64,
    pub fps_diagnostic: String,
    pub total_mcps: Double,
    pub cpi: Double,
    pub cache_references_per_sec: Double,
    pub cache_misses_per_sec: Double,
    pub cache_miss_rate_pct: Double,
    pub branch_instructions_per_sec: Double,
    pub branch_misses_per_sec: Double,
    pub branch_miss_rate_pct: Double,
}

impl Default for RtbDataPoint {
    /// Every number zero, every list and text empty.
    fn default() -> (p: RtbDataPoint)
        ensures
            p.timestamp_ms == 0,
            p.fps == Double::nought(),
            p.bcpu_usage_pct == Double::nought(),
            p.total_mips == Double::nought(),
            p.total_mcps == Double::nought(),
            p.cpi == Double::nought(),
            p.cache_references_per_sec == Double::nought(),
            p.cache_misses_per_sec == Double::nought(),
            p.cache_miss_rate_pct == Double::nought(),
            p.branch_instructions_per_sec == Double::nought(),
            p.branch_misses_per_sec == Double::nought(),
            p.branch_miss_rate_pct == Double::nought(),
            p.cpu_freqs_mhz@ == Seq::<Double>::empty(),
            p.cpu_usages_pct@ == Seq::<Double>::empty(),
            p.frame_times_ms@ == Seq::<Single>::empty(),
            p.process_name@ == Seq::<char>::empty(),
            p.fps_diagnostic@ == Seq::<char>::empty(),
            p.mem_total_kb == 0,
            p.mem_available_kb == 0,
            p.top_app_rss_kb == 0,
            p.wss_kb == 0,
            p.pss_kb == 0,
    {
        let z = Double::zero();
        RtbDataPoint {
            timestamp_ms: 0,
            fps: z,
            fps_dequeue: z,
            fps_queue: z,
            fps_present_fence: z,
            power_mw: z,
            power_ma: z,
            voltage_v: z,
            board_temp_c: z,
            battery_temp_c: z,
            gpu_freq_mhz: z,
            gpu_loading_pct: z,
            bcpu_freq_mhz: z,
            bcpu_usage_pct: z,
            mcpu_freq_mhz: z,
            mcpu_usage_pct: z,
            lcpu_freq_mhz: z,
            lcpu_usage_pct: z,
            cpu_freqs_mhz: Vec::new(),
            cpu_usages_pct: Vec::new(),
            total_mips: z,
            game_mips: z,
            logical_mips: z,
            render_mips: z,
            rhi_mips: z,
            dsu_freq_mhz: z,
            dram_freq_mhz: z,
            vcore_v: z,
            wss_kb: 0,
            pss_kb: 0,
            top_app_rss_kb: 0,
            frame_times_ms: Vec::new(),
            cpu_time_ms: z,
            gpu_time_ms: z,
            power_avg_mw: z,
            process_name: String::new(),
            mem_total_kb: 0,
            mem_available_kb: 0,
            fps_diagnostic: String::new(),
            total_mcps: z,
            cpi: z,
            cache_references_per_sec: z,
            cache_misses_per_sec: z,
            cache_miss_rate_pct: z,
            branch_instructions_per_sec: z,
            branch_misses_per_sec: z,
            branch_miss_rate_pct: z,
        }
    }
}

// ---------------------------------------------------------------------------
// Requests
// ---------------------------------------------------------------------------

/// What a real-time benchmark stream is asked to measure.
#[derive(Debug, Clone, Copy, PartialEq, Eq, Structural)]
pub struct RtbStreamOptions {
    pub enable_cpu_loading: bool,
    pub enable_cpu_freq: bool,
    pub enable_fps_dequeue: bool,
    pub enable_fps_queue: bool,
    pub enable_fps_present_fence: bool,
    pub enable_gpu: bool,
    pub use_dumpsys_fps: bool,
    pub enable_power: bool,
    pub enable_temperature: bool,
    pub enable_dvfs: bool,
    pub enable_memory: bool,
    pub enable_total_mips: bool,
    pub enable_thread_mips: bool,
    pub warmup_secs: Double,
}

impl RtbStreamOptions {
    /// Every measurement off, without a warm-up.
    pub open spec fn off() -> RtbStreamOptions {
        RtbStreamOptions {
            enable_cpu_loading: false,
            enable_cpu_freq: false,
            enable_fps_dequeue: false,
            enable_fps_queue: false,
            enable_fps_present_fence: false,
            enable_gpu: false,
            use_dumpsys_fps: false,
            enable_power: false,
            enable_temperature: false,
            enable_dvfs: false,
            enable_memory: false,
            enable_total_mips: false,
            enable_thread_mips: false,
            warmup_secs: Double::nought(),
        }
    }
}

impl Default for RtbStreamOptions {
    fn default() -> (o: RtbStreamOptions)
        ensures
            o == RtbStreamOptions::off(),
    {
        RtbStreamOptions {
            enable_cpu_loading: false,
            enable_cpu_freq: false,
            enable_fps_dequeue: false,
            enable_fps_queue: false,
            enable_fps_present_fence: false,
            enable_gpu: false,
            use_dumpsys_fps: false,
            enable_power: false,
            enable_temperature: false,
            enable_dvfs: false,
            enable_memory: false,
            enable_total_mips: false,
            enable_thread_mips: false,
            warmup_secs: Double::zero(),
        }
    }
}

/// What the daemon can be asked to do. `S` is the type of texts, `I` that of
/// lists of signed integers and `U` that of lists of unsigned integers.
#[derive(Debug, Clone)]
pub enum Request<S, I, U> {
    Health,
    GetPid { package_name: S },
    StopRecording { session_type: S },
    GetRtbSummary,
    GetSurfaceNames { package_name: S },
    Shell { command: S },
    PathExists { path: S },
    GetTopApp,
    GetScreenSize,
    InputTap { x: i32, y: i32 },
    InputSwipe { x1: i32, y1: i32, x2: i32, y2: i32, duration_ms: i32 },
    InputText { text: S },
    InputKeyEvent { key_code: i32 },
    ListPackages { third_party_only: bool },
    GetPackageInfo { package_name: S },
    LaunchApp { package_name: S },
    StopApp { package_name: S },
    InstallApk { remote_apk_path: S },
    GetDeviceProp { prop_name: S },
    GetTemperature,
    SetCharging { enable: bool },
    SetDeviceId { device_id: S },
    RemoveFile { path: S },
    CreateArchive { working_directory: S, target: S, output_path: S },
    ExtractArchive { working_directory: S, archive_path: S },
    Chmod { path: S, mode: S, recursive: bool },
    Chown { path: S, uid: i32, gid: i32, recursive: bool },
    GetFileOwner { path: S },
    DiscoverFtraceEvents,
    DiscoverPmuEvents,
    GetPmuHwCounters,
    DiscoverGpuCounters,
    Screenshot { quality: i32 },
    PullFile { remote_path: S },
    PushFile { remote_path: S },
    StartPerfetto { pid: i32, mode: S, duration_secs: i32, config_pbtxt: S },
    GetPerfettoStatus,
    StartRtbStream { pid: i32, interval_secs: Double, mode: S, options: RtbStreamOptions },
    StartCrStream {
        interval_secs: Double,
        cpus: I,
        exclude_kernel: bool,
        diff_kernel: bool,
        full_mode: bool,
        custom_events: U,
    },
    StartTcStream {
        pid: i32,
        interval_secs: Double,
        exclude_kernel: bool,
        diff_kernel: bool,
        top_threads_count: i32,
        full_mode: bool,
        custom_events: U,
    },
    StartCmlStream { cpus: I, max_footprint_kb: u32, min_footprint_kb: u32 },
    StartGcStream { gpu_device_number: u32, interval_secs: Double, counter_ids: U },
}

/// What the statistical profiler samples.
#[derive(Debug, Clone, Copy, PartialEq, Eq, Structural)]
pub enum SourceSpeCaptureScope {
    TopHotThreads,
    CpuOnlySystemWide,
}

/// Which operations the statistical profiler samples.
#[derive(Debug, Clone, Copy, PartialEq, Eq, Structural)]
pub enum SourceSpeOperationFilterMode {
    AllOps,
    MemoryBranchOnly,
}

/// A request as the library holds it.
pub type Call = Request<String, Vec<i32>, Vec<u32>>;

/// A request as contracts speak of it.
pub type CallModel = Request<Seq<char>, Seq<i32>, Seq<u32>>;

impl View for Request<String, Vec<i32>, Vec<u32>> {
    type V = Request<Seq<char>, Seq<i32>, Seq<u32>>;

    open spec fn view(&self) -> Request<Seq<char>, Seq<i32>, Seq<u32>> {
        match self {
            Request::Health => Request::Health,
            Request::GetPid { package_name } => Request::GetPid { package_name: package_name@ },
            Request::StopRecording { session_type } => Request::StopRecording {
                session_type: session_type@,
            },
            Request::GetRtbSummary => Request::GetRtbSummary,
            Request::GetSurfaceNames { package_name } => Request::GetSurfaceNames {
                package_name: package_name@,
            },
            Request::Shell { command } => Request::Shell { command: command@ },
            Request::PathExists { path } => Request::PathExists { path: path@ },
            Request::GetTopApp => Request::GetTopApp,
            Request::GetScreenSize => Request::GetScreenSize,
            Request::InputTap { x, y } => Request::InputTap { x: *x, y: *y },
            Request::InputSwipe { x1, y1, x2, y2, duration_ms } => Request::InputSwipe {
                x1: *x1,
                y1: *y1,
                x2: *x2,
                y2: *y2,
                duration_ms: *duration_ms,
            },
            Request::InputText { text } => Request::InputText { text: text@ },
            Request::InputKeyEvent { key_code } => Request::InputKeyEvent { key_code: *key_code },
            Request::ListPackages { third_party_only } => Request::ListPackages {
                third_party_only: *third_party_only,
            },
            Request::GetPackageInfo { package_name } => Request::GetPackageInfo {
                package_name: package_name@,
            },
            Request::LaunchApp { package_name } => Request::LaunchApp {
                package_name: package_name@,
            },
            Request::StopApp { package_name } => Request::StopApp { package_name: package_name@ },
            Request::InstallApk { remote_apk_path } => Request::InstallApk {
                remote_apk_path: remote_apk_path@,
            },
            Request::GetDeviceProp { prop_name } => Request::GetDeviceProp {
                prop_name: prop_name@,
            },
            Request::GetTemperature => Request::GetTemperature,
            Request::SetCharging { enable } => Request::SetCharging { enable: *enable },
            Request::SetDeviceId { device_id } => Request::SetDeviceId { device_id: device_id@ },
            Request::RemoveFile { path } => Request::RemoveFile { path: path@ },
            Request::CreateArchive {
                working_directory,
                target,
                output_path,
            } => Request::CreateArchive {
                working_directory: working_directory@,
                target: target@,
                output_path: output_path@,
            },
            Request::ExtractArchive { working_directory, archive_path } => Request::ExtractArchive {
                working_directory: working_directory@,
                archive_path: archive_path@,
            },
            Request::Chmod { path, mode, recursive } => Request::Chmod {
                path: path@,
                mode: mode@,
                recursive: *recursive,
            },
            Request::Chown { path, uid, gid, recursive } => Request::Chown {
                path: path@,
                uid: *uid,
                gid: *gid,
                recursive: *recursive,
            },
            Request::GetFileOwner { path } => Request::GetFileOwner { path: path@ },
            Request::DiscoverFtraceEvents => Request::DiscoverFtraceEvents,
            Request::DiscoverPmuEvents => Request::DiscoverPmuEvents,
            Request::GetPmuHwCounters => Request::GetPmuHwCounters,
            Request::DiscoverGpuCounters => Request::DiscoverGpuCounters,
            Request::Screenshot { quality } => Request::Screenshot { quality: *quality },
            Request::PullFile { remote_path } => Request::PullFile { remote_path: remote_path@ },
            Request::PushFile { remote_path } => Request::PushFile { remote_path: remote_path@ },
            Request::StartPerfetto {
                pid,
                mode,
                duration_secs,
                config_pbtxt,
            } => Request::StartPerfetto {
                pid: *pid,
                mode: mode@,
                duration_secs: *duration_secs,
                config_pbtxt: config_pbtxt@,
            },
            Request::GetPerfettoStatus => Request::GetPerfettoStatus,
            Request::StartRtbStream {
                pid,
                interval_secs,
                mode,
                options,
            } => Request::StartRtbStream {
                pid: *pid,
                interval_secs: *interval_secs,
                mode: mode@,
                options: *options,
            },
            Request::StartCrStream {
                interval_secs,
                cpus,
                exclude_kernel,
                diff_kernel,
                full_mode,
                custom_events,
            } => Request::StartCrStream {
                interval_secs: *interval_secs,
                cpus: cpus@,
                exclude_kernel: *exclude_kernel,
                diff_kernel: *diff_kernel,
                full_mode: *full_mode,
                custom_events: custom_events@,
            },
            Request::StartTcStream {
                pid,
                interval_secs,
                exclude_kernel,
                diff_kernel,
                top_threads_count,
                full_mode,
                custom_events,
            } => Request::StartTcStream {
                pid: *pid,
                interval_secs: *interval_secs,
                exclude_kernel: *exclude_kernel,
                diff_kernel: *diff_kernel,
                top_threads_count: *top_threads_count,
                full_mode: *full_mode,
                custom_events: custom_events@,
            },
            Request::StartCmlStream {
                cpus,
                max_footprint_kb,
                min_footprint_kb,
            } => Request::StartCmlStream {
                cpus: cpus@,
                max_footprint_kb: *max_footprint_kb,
                min_footprint_kb: *min_footprint_kb,
            },
            Request::StartGcStream {
                gpu_device_number,
                interval_secs,
                counter_ids,
            } => Request::StartGcStream {
                gpu_device_number: *gpu_device_number,
                interval_secs: *interval_secs,
                counter_ids: counter_ids@,
            },
        }
    }
}

// ---------------------------------------------------------------------------
// Answers
// ---------------------------------------------------------------------------

/// What the daemon says of a request that it did or did not carry out.
#[derive(Debug, Clone)]
pub struct GenericResponse {
    pub success: bool,
    pub message: String,
}

/// What a shell command came to.
#[derive(Debug, Clone)]
pub struct ShellResponse {
    pub exit_code: i32,
    pub stdout: String,
    pub stderr: String,
}

/// What a thread did while a recording ran.
#[derive(Debug, Clone)]
pub struct ThreadSnapshot {
    pub tid: i32,
    pub tgid: i32,
    pub name: String,
    pub loading_pct: Double,
    pub c0_pct: Double,
    pub c1_pct: Double,
    pub c2_pct: Double,
    pub runnable_pct: Double,
    pub mips: Double,
    pub mcps: Double,
    pub cpi: Double,
}

/// What a recording showed as a whole.
#[derive(Debug, Clone)]
pub struct RtbSummary {
    pub top_threads: Vec<ThreadSnapshot>,
    pub freq_distributions: Vec<FreqDistribution>,
    pub logical_thread: Option<ThreadSnapshot>,
    pub render_thread: Option<ThreadSnapshot>,
    pub rhi_thread: Option<ThreadSnapshot>,
    pub start_temp: Double,
    pub end_temp: Double,
    pub frame_times_ms: Vec<Single>,
    pub vsync_sf_buckets: Vec<VsyncSfBucket>,
    pub vsync_sf_base_interval_ms: Double,
}

/// The latencies at one size of memory.
#[derive(Debug, Clone)]
pub struct CmlDataPoint {
    pub footprint_kb: u32,
    pub cpus: Vec<CmlCpuLatency>,
}

/// An installed package.
#[derive(Debug, Clone)]
pub struct PackageInfo {
    pub package_name: String,
    pub apk_path: String,
    pub version_name: String,
    pub app_label: String,
    pub version_code: i32,
    pub pid: i32,
}

/// The size of the screen.
#[derive(Debug, Clone, Copy, PartialEq, Eq, Structural)]
pub struct ScreenSizeResponse {
    pub width: i32,
    pub height: i32,
}

/// The device's temperatures, and the level of its battery.
#[derive(Debug, Clone)]
pub struct TemperatureResponse {
    pub battery_temp_c: Double,
    pub board_temp_c: Double,
    pub battery_level_pct: u32,
}

/// How long a component ran at a frequency.
#[derive(Debug, Clone)]
pub struct FreqBucket {
    pub freq_mhz: u64,
    pub count: u32,
    pub percentage: Double,
}

/// The frequencies at which a component ran.
#[derive(Debug, Clone)]
pub struct FreqDistribution {
    pub component: String,
    pub buckets: Vec<FreqBucket>,
}

/// How often an interval between two frames came up.
#[derive(Debug, Clone)]
pub struct VsyncSfBucket {
    pub multiple: u32,
    pub center_ms: Double,
    pub count: u32,
    pub percentage: Double,
}

/// How far a counter went on.
#[derive(Debug, Clone)]
pub struct RawEventDelta {
    pub event_index: u32,
    pub delta: u64,
}

/// What a processor core did.
#[derive(Debug, Clone)]
pub struct CrCpuMetrics {
    pub cpu_num: i32,
    pub cpu_freq_mhz: Double,
    pub cpu_usage_pct: Double,
    pub mips: Double,
    pub mcps: Double,
    pub cpi: Double,
    pub execution_mcps: Double,
    pub stall_ratio_pct: Double,
    pub be_stall_ratio_pct: Double,
    pub fe_stall_ratio_pct: Double,
    pub stall_mcps: Double,
    pub l1d_refill_ratio_pct: Double,
    pub l2d_refill_ratio_pct: Double,
    pub l3d_refill_ratio_pct: Double,
    pub llc_read_hit_ratio_pct: Double,
    pub l1d_mpki: Double,
    pub l2d_mpki: Double,
    pub l3d_mpki: Double,
    pub branch_mpki: Double,
    pub dtlb_mpki: Double,
    pub itlb_mpki: Double,
    pub branch_miss_rate_pct: Double,
    pub raw_event_deltas: Vec<RawEventDelta>,
}

/// One cache report.
#[derive(Debug, Clone)]
pub struct CrDataPoint {
    pub timestamp_ms: u64,
    pub cpus: Vec<CrCpuMetrics>,
    pub kernel_cpus: Vec<CrCpuMetrics>,
    pub include_cpus: Vec<CrCpuMetrics>,
}

/// What a thread did.
#[derive(Debug, Clone)]
pub struct TcThreadMetrics {
    pub thread_id: i32,
    pub thread_name: String,
    pub mips: Double,
    pub mcps: Double,
    pub cpi: Double,
    pub cpu_usage_pct: Double,
    pub l1d_refill_ratio_pct: Double,
    pub l1i_refill_ratio_pct: Double,
    pub l2d_refill_ratio_pct: Double,
    pub l3d_refill_ratio_pct: Double,
    pub stall_ratio_pct: Double,
    pub be_stall_ratio_pct: Double,
    pub fe_stall_ratio_pct: Double,
    pub stall_mcps: Double,
    pub be_stall_mcps: Double,
    pub fe_stall_mcps: Double,
    pub memory_instruction_pct: Double,
    pub raw_event_deltas: Vec<RawEventDelta>,
}

/// One cache report of threads.
#[derive(Debug, Clone)]
pub struct TcDataPoint {
    pub timestamp_ms: u64,
    pub threads: Vec<TcThreadMetrics>,
    pub kernel_threads: Vec<TcThreadMetrics>,
}

/// The latency that a core saw.
#[derive(Debug, Clone)]
pub struct CmlCpuLatency {
    pub cpu_id: i32,
    pub latency_ns: Double,
    pub error: bool,
}

/// The value of a counter of the GPU.
#[derive(Debug, Clone)]
pub struct GcCounterValue {
    pub counter_id: u32,
    pub value: Double,
}

/// One sample of the GPU's counters.
#[derive(Debug, Clone)]
pub struct GcDataPoint {
    pub timestamp_ms: u64,
    pub counters: Vec<GcCounterValue>,
}

/// A GPU of the device.
#[derive(Debug, Clone)]
pub struct GpuInfo {
    pub device_number: u32,
    pub gpu_family: String,
    pub num_shader_cores: u32,
    pub num_execution_engines: u32,
    pub bus_width: u32,
    pub product_id: u64,
}

/// A counter that a GPU has.
#[derive(Debug, Clone)]
pub struct GpuCounterInfo {
    pub counter_id: u32,
    pub name: String,
    pub units: String,
}

/// The GPUs of the device and their counters.
#[derive(Debug, Clone)]
pub struct GcDiscoverResponse {
    pub gpus: Vec<GpuInfo>,
    pub available_counters: Vec<GpuCounterInfo>,
}

/// An event that the kernel can trace.
#[derive(Debug, Clone)]
pub struct FtraceEventInfo {
    pub category: String,
    pub event_name: String,
}

/// The events that the kernel can trace.
#[derive(Debug, Clone)]
pub struct DiscoverFtraceResponse {
    pub events: Vec<FtraceEventInfo>,
    pub ready: bool,
}

/// An event that the performance monitors can count.
#[derive(Debug, Clone)]
pub struct PmuEventInfo {
    pub index: u32,
    pub name: String,
    pub code: u64,
    pub category: String,
    pub description: String,
    pub is_core: bool,
    pub is_supported: bool,
}

/// The events that the performance monitors can count.
#[derive(Debug, Clone)]
pub struct DiscoverPmuResponse {
    pub events: Vec<PmuEventInfo>,
    pub ready: bool,
}

/// How many counters a core has.
#[derive(Debug, Clone)]
pub struct PmuHwCounter {
    pub cpu: i32,
    pub counter_count: i32,
}

/// How many counters each core has.
#[derive(Debug, Clone)]
pub struct PmuHwCounterResponse {
    pub cpus: Vec<PmuHwCounter>,
    pub ready: bool,
}

/// Whether an event can be sampled, and why not.
#[derive(Debug, Clone)]
pub struct SourceCapabilityDetail {
    pub event_key: String,
    pub raw_event_name: String,
    pub event_source: String,
    pub event_type: String,
    pub config: String,
    pub supported: bool,
    pub errno: i32,
    pub failure_reason: String,
    pub kernel_path: String,
    pub sysfs_path: String,
}

/// What can be sampled on a core.
#[derive(Debug, Clone)]
pub struct SourceCpuCapabilityRow {
    pub cpu: i32,
    pub cluster: String,
    pub spe: bool,
    pub cycles: bool,
    pub instructions: bool,
    pub cache: bool,
    pub branch: bool,
    pub callchain: bool,
    pub source_sample_fields: bool,
    pub details: Vec<SourceCapabilityDetail>,
}

/// What can be sampled on the device.
#[derive(Debug, Clone)]
pub struct SourceProfileCapabilityResponse {
    pub cpus: Vec<SourceCpuCapabilityRow>,
    pub capability_json: String,
    pub warnings: Vec<String>,
}

/// How a source profile was started.
#[derive(Debug, Clone)]
pub struct SourceProfileStartResponse {
    pub success: bool,
    pub session_id: String,
    pub remote_bundle_path: String,
    pub accepted_settings_json: String,
    pub warnings: Vec<String>,
    pub message: String,
}

/// How far a source profile has come.
#[derive(Debug, Clone)]
pub struct SourceProfileStatusResponse {
    pub state: i32,
    pub session_id: String,
    pub elapsed_secs: Double,
    pub progress_pct: Double,
    pub sample_count: u64,
    pub sample_weight_sum: u64,
    pub lost_count: u64,
    pub current_event_run: String,
    pub last_warning: String,
    pub remote_bundle_path: String,
    pub message: String,
}

/// How a source profile was stopped.
#[derive(Debug, Clone)]
pub struct SourceProfileStopResponse {
    pub success: bool,
    pub session_id: String,
    pub remote_bundle_path: String,
    pub warnings: Vec<String>,
    pub message: String,
}

} // verus!
