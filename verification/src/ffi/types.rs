//! The values that are handed to callers in other languages: texts are wide,
//! and what a caller may be handed nothing for is an option.
use vstd::prelude::*;
use crate::double::{Double, Single};

verus! {

/// What a call came to.
#[derive(Debug, Clone, Copy, PartialEq, Eq, Structural)]
pub enum ProfilerResult {
    Success,
    DeviceNotFound,
    DaemonNotRunning,
    ConnectionFailed,
    OperationFailed,
    InvalidParameter,
    Unknown,
}

impl ProfilerResult {
    /// The number that stands for a result.
    pub open spec fn number(self) -> i32 {
        match self {
            ProfilerResult::Success => 0,
            ProfilerResult::DeviceNotFound => 1,
            ProfilerResult::DaemonNotRunning => 2,
            ProfilerResult::ConnectionFailed => 3,
            ProfilerResult::OperationFailed => 4,
            ProfilerResult::InvalidParameter => 5,
            ProfilerResult::Unknown => 99,
        }
    }

    /// The number that stands for a result.
    pub fn code(&self) -> (n: i32)
        ensures
            n == self.number(),
    {
        match self {
            ProfilerResult::Success => 0,
            ProfilerResult::DeviceNotFound => 1,
            ProfilerResult::DaemonNotRunning => 2,
            ProfilerResult::ConnectionFailed => 3,
            ProfilerResult::OperationFailed => 4,
            ProfilerResult::InvalidParameter => 5,
            ProfilerResult::Unknown => 99,
        }
    }

    /// No two results have the same number.
    pub proof fn law_numbers_tell_results_apart(a: ProfilerResult, b: ProfilerResult)
        ensures
            a.number() == b.number() ==> a == b,
    {
    }
}

/// What a real-time benchmark stream is asked to measure.
#[derive(Debug, Clone, Copy)]
pub struct ProfilerRtbOptions {
    pub enable_cpu_loading: bool,
    pub enable_cpu_freq: bool,
    pub enable_fps_dequeue: bool,
    pub enable_fps_queue: bool,
    pub enable_fps_present_fence: bool,
    pub enable_gpu: bool,
    pub use_dumpsys_fps: bool,
    pub enable_power: bool,
    pub enable_temperature: bool,
    pub enable_dvfs: bool,
    pub enable_memory: bool,
    pub enable_total_mips: bool,
    pub enable_thread_mips: bool,
    pub warmup_secs: Double,
}

/// The cores to be sampled.
#[derive(Debug)]
pub struct ProfilerSourceCpuSelection {
    pub all_cpus: bool,
    pub cpus: Option<Vec<i32>>,
    pub clusters: Option<Vec<Option<Vec<u16>>>>,
}

/// What a scan of the device's capabilities is asked for.
#[derive(Debug)]
pub struct ProfilerSourceCapabilityOptions {
    pub package_name: Option<Vec<u16>>,
    pub pid: u32,
    pub cpu_selection: ProfilerSourceCpuSelection,
    pub enable_pmu: bool,
    pub enable_spe: bool,
    pub requested_metric_groups: Option<Vec<Option<Vec<u16>>>>,
}

/// A path that stands in for another.
#[derive(Debug)]
pub struct ProfilerSourcePathRemap {
    pub from: Option<Vec<u16>>,
    pub to: Option<Vec<u16>>,
}

/// What a source profile is asked for.
#[derive(Debug)]
pub struct ProfilerSourceStartOptions {
    pub package_name: Option<Vec<u16>>,
    pub pid: u32,
    pub cpu_selection: ProfilerSourceCpuSelection,
    pub enable_pmu: bool,
    pub enable_spe: bool,
    pub duration_ms: u64,
    pub pmu_buffer_pages: u32,
    pub pmu_max_output_bytes: u64,
    pub spe_aux_buffer_bytes: u64,
    pub spe_max_output_bytes: u64,
    pub spe_ring_buffer_pages: u32,
    pub spe_capture_scope: i32,
    pub spe_operation_filter: i32,
    pub sample_period: u64,
    pub callchain_depth: u32,
    pub output_remote_root: Option<Vec<u16>>,
    pub requested_event_keys: Option<Vec<Option<Vec<u16>>>>,
    pub debug_elf_hints: Option<Vec<Option<Vec<u16>>>>,
    pub source_root_hints: Option<Vec<Option<Vec<u16>>>>,
    pub path_remaps: Option<Vec<ProfilerSourcePathRemap>>,
    pub bundle_device_debug_elfs: bool,
}

/// The devices that `adb` lists.
#[derive(Debug)]
pub struct ProfilerDeviceList {
    pub devices: Vec<ProfilerDevice>,
}

/// The installed packages.
#[derive(Debug)]
pub struct ProfilerPackageList {
    pub packages: Vec<ProfilerPackageInfo>,
}

/// What a shell command came to.
#[derive(Debug)]
pub struct ProfilerShellResult {
    pub exit_code: i32,
    pub stdout: Option<Vec<u16>>,
    pub stderr: Option<Vec<u16>>,
}

/// What a thread did while a recording ran.
#[derive(Debug)]
pub struct ProfilerThreadSnapshot {
    pub tid: i32,
    pub tgid: i32,
    pub name: Option<Vec<u16>>,
    pub loading_pct: Double,
    pub c0_pct: Double,
    pub c1_pct: Double,
    pub c2_pct: Double,
    pub runnable_pct: Double,
    pub mips: Double,
    pub mcps: Double,
    pub cpi: Double,
}

/// What a recording showed as a whole.
#[derive(Debug)]
pub struct ProfilerRtbSummary {
    pub top_threads: Vec<ProfilerThreadSnapshot>,
    pub freq_distributions: Vec<ProfilerFreqDistribution>,
    pub logical_thread: ProfilerThreadSnapshot,
    pub render_thread: ProfilerThreadSnapshot,
    pub rhi_thread: ProfilerThreadSnapshot,
    pub start_temp: Double,
    pub end_temp: Double,
    pub frame_times_ms: Vec<Single>,
    pub vsync_sf_buckets: Vec<ProfilerVsyncSfBucket>,
    pub vsync_sf_base_interval_ms: Double,
}

/// The latencies at one size of memory, and whether the benchmark is done.
#[derive(Debug)]
pub struct ProfilerCmlData {
    pub footprint_kb: u32,
    pub cpus: Vec<ProfilerCmlCpuLatency>,
    pub is_finished: bool,
}

/// A device that `adb` lists.
#[derive(Debug)]
pub struct ProfilerDevice {
    pub serial: Vec<u16>,
    pub model: Vec<u16>,
    pub state: Vec<u16>,
    pub product: Vec<u16>,
    pub device_name: Vec<u16>,
}

/// The app in the foreground.
#[derive(Debug)]
pub struct ProfilerTopApp {
    pub package_name: Vec<u16>,
    pub activity: Vec<u16>,
    pub pid: i32,
}

/// The daemon's version and status.
#[derive(Debug)]
pub struct ProfilerHealthInfo {
    pub version: Vec<u16>,
    pub status: Vec<u16>,
}

/// How far a trace has come.
#[derive(Debug)]
pub struct ProfilerPerfettoStatus {
    pub state: i32,
    pub progress_pct: Double,
    pub output_path: Vec<u16>,
}

/// An installed package.
#[derive(Debug)]
pub struct ProfilerPackageInfo {
    pub package_name: Vec<u16>,
    pub apk_path: Vec<u16>,
    pub version_name: Vec<u16>,
    pub app_label: Vec<u16>,
    pub version_code: i32,
    pub pid: i32,
}

/// The device's temperatures, and the level of its battery.
#[derive(Debug)]
pub struct ProfilerTemperature {
    pub battery_temp_c: Double,
    pub board_temp_c: Double,
    pub battery_level_pct: u32,
}

/// One sample of the real-time benchmark stream.
#[derive(Debug)]
pub struct ProfilerRtbData {
    pub timestamp_ms: u64,
    pub fps: Double,
    pub fps_dequeue: Double,
    pub fps_queue: Double,
    pub fps_present_fence: Double,
    pub power_mw: Double,
    pub power_ma: Double,
    pub voltage_v: Double,
    pub board_temp_c: Double,
    pub battery_temp_c: Double,
    pub gpu_freq_mhz: Double,
    pub gpu_loading_pct: Double,
    pub bcpu_freq_mhz: Double,
    pub bcpu_usage_pct: Double,
    pub mcpu_freq_mhz: Double,
    pub mcpu_usage_pct: Double,
    pub lcpu_freq_mhz: Double,
    pub lcpu_usage_pct: Double,
    pub cpu_freqs_mhz: Vec<Double>,
    pub cpu_usages_pct: Vec<Double>,
    pub total_mips: Double,
    pub game_mips: Double,
    pub logical_mips: Double,
    pub render_mips: Double,
    pub rhi_mips: Double,
    pub dsu_freq_mhz: Double,
    pub dram_freq_mhz: Double,
    pub vcore_v: Double,
    pub wss_kb: u64,
    pub pss_kb: u64,
    pub top_app_rss_kb: u64,
    pub frame_times_ms: Vec<Single>,
    pub cpu_time_ms: Double,
    pub gpu_time_ms: Double,
    pub power_avg_mw: Double,
    pub process_name: Option<Vec<u16>>,
    pub mem_total_kb: u64,
    pub mem_available_kb: u64,
    pub fps_diagnostic: Option<Vec<u16>>,
}

/// How long a component ran at a frequency.
#[derive(Debug)]
pub struct ProfilerFreqBucket {
    pub freq_mhz: u64,
    pub count: u32,
    pub percentage: Double,
}

/// The frequencies at which a component ran.
#[derive(Debug)]
pub struct ProfilerFreqDistribution {
    pub component: Vec<u16>,
    pub buckets: Vec<ProfilerFreqBucket>,
}

/// How often an interval between two frames came up.
#[derive(Debug)]
pub struct ProfilerVsyncSfBucket {
    pub multiple: u32,
    pub center_ms: Double,
    pub count: u32,
    pub percentage: Double,
}

/// How far a counter went on.
#[derive(Debug)]
pub struct ProfilerRawEventDelta {
    pub event_index: u32,
    pub delta: u64,
}

/// What a processor core did.
#[derive(Debug)]
pub struct ProfilerCrCpuMetrics {
    pub cpu_num: i32,
    pub cpu_freq_mhz: Double,
    pub cpu_usage_pct: Double,
    pub mips: Double,
    pub mcps: Double,
    pub cpi: Double,
    pub execution_mcps: Double,
    pub stall_ratio_pct: Double,
    pub be_stall_ratio_pct: Double,
    pub fe_stall_ratio_pct: Double,
    pub stall_mcps: Double,
    pub l1d_refill_ratio_pct: Double,
    pub l2d_refill_ratio_pct: Double,
    pub l3d_refill_ratio_pct: Double,
    pub llc_read_hit_ratio_pct: Double,
    pub l1d_mpki: Double,
    pub l2d_mpki: Double,
    pub l3d_mpki: Double,
    pub branch_mpki: Double,
    pub dtlb_mpki: Double,
    pub itlb_mpki: Double,
    pub branch_miss_rate_pct: Double,
    pub raw_event_deltas: Vec<ProfilerRawEventDelta>,
}

/// One cache report.
#[derive(Debug)]
pub struct ProfilerCrData {
    pub timestamp_ms: u64,
    pub cpus: Vec<ProfilerCrCpuMetrics>,
    pub kernel_cpus: Vec<ProfilerCrCpuMetrics>,
    pub include_cpus: Vec<ProfilerCrCpuMetrics>,
}

/// What a thread did.
#[derive(Debug)]
pub struct ProfilerTcThreadMetrics {
    pub thread_id: i32,
    pub thread_name: Vec<u16>,
    pub mips: Double,
    pub mcps: Double,
    pub cpi: Double,
    pub cpu_usage_pct: Double,
    pub l1d_refill_ratio_pct: Double,
    pub l1i_refill_ratio_pct: Double,
    pub l2d_refill_ratio_pct: Double,
    pub l3d_refill_ratio_pct: Double,
    pub stall_ratio_pct: Double,
    pub be_stall_ratio_pct: Double,
    pub fe_stall_ratio_pct: Double,
    pub stall_mcps: Double,
    pub be_stall_mcps: Double,
    pub fe_stall_mcps: Double,
    pub memory_instruction_pct: Double,
    pub raw_event_deltas: Vec<ProfilerRawEventDelta>,
}

/// One cache report of threads.
#[derive(Debug)]
pub struct ProfilerTcData {
    pub timestamp_ms: u64,
    pub threads: Vec<ProfilerTcThreadMetrics>,
    pub kernel_threads: Vec<ProfilerTcThreadMetrics>,
}

/// The latency that a core saw.
#[derive(Debug)]
pub struct ProfilerCmlCpuLatency {
    pub cpu_id: i32,
    pub latency_ns: Double,
    pub error: bool,
}

/// The value of a counter of the GPU.
#[derive(Debug)]
pub struct ProfilerGcCounterValue {
    pub counter_id: u32,
    pub value: Double,
}

/// One sample of the GPU's counters.
#[derive(Debug)]
pub struct ProfilerGcData {
    pub timestamp_ms: u64,
    pub counters: Vec<ProfilerGcCounterValue>,
}

/// A GPU of the device.
#[derive(Debug)]
pub struct ProfilerGpuInfo {
    pub device_number: u32,
    pub gpu_family: Vec<u16>,
    pub num_shader_cores: u32,
    pub num_exec_engines: u32,
    pub bus_width: u32,
    pub product_id: u64,
}

/// A counter that a GPU has.
#[derive(Debug)]
pub struct ProfilerGpuCounterInfo {
    pub counter_id: u32,
    pub name: Vec<u16>,
    pub units: Vec<u16>,
}

/// The GPUs of the device and their counters.
#[derive(Debug)]
pub struct ProfilerGcDiscoverResult {
    pub gpus: Vec<ProfilerGpuInfo>,
    pub counters: Vec<ProfilerGpuCounterInfo>,
}

/// An event that the kernel can trace.
#[derive(Debug)]
pub struct ProfilerFtraceEventInfo {
    pub category: Vec<u16>,
    pub event_name: Vec<u16>,
}

/// The events that the kernel can trace.
#[derive(Debug)]
pub struct ProfilerFtraceDiscoverResult {
    pub events: Vec<ProfilerFtraceEventInfo>,
    pub ready: i32,
}

/// An event that the performance monitors can count.
#[derive(Debug)]
pub struct ProfilerPmuEventInfo {
    pub index: u32,
    pub name: Vec<u16>,
    pub code: u64,
    pub category: Vec<u16>,
    pub description: Vec<u16>,
    pub is_core: i32,
    pub is_supported: i32,
}

/// The events that the performance monitors can count.
#[derive(Debug)]
pub struct ProfilerPmuDiscoverResult {
    pub events: Vec<ProfilerPmuEventInfo>,
    pub ready: i32,
}

/// How many counters a core has.
#[derive(Debug)]
pub struct ProfilerPmuHwCounter {
    pub cpu: i32,
    pub counter_count: i32,
}

/// How many counters each core has.
#[derive(Debug)]
pub struct ProfilerPmuHwCounterResult {
    pub counters: Vec<ProfilerPmuHwCounter>,
    pub ready: i32,
}

/// Whether an event can be sampled, and why not.
#[derive(Debug)]
pub struct ProfilerSourceCapabilityDetail {
    pub event_key: Vec<u16>,
    pub raw_event_name: Vec<u16>,
    pub event_source: Vec<u16>,
    pub event_type: Vec<u16>,
    pub config: Vec<u16>,
    pub supported: bool,
    pub errno: i32,
    pub failure_reason: Vec<u16>,
    pub kernel_path: Vec<u16>,
    pub sysfs_path: Vec<u16>,
}

/// What can be sampled on a core.
#[derive(Debug)]
pub struct ProfilerSourceCpuCapabilityRow {
    pub cpu: i32,
    pub cluster: Vec<u16>,
    pub spe: bool,
    pub cycles: bool,
    pub instructions: bool,
    pub cache: bool,
    pub branch: bool,
    pub callchain: bool,
    pub source_sample_fields: bool,
    pub details: Vec<ProfilerSourceCapabilityDetail>,
}

/// What can be sampled on the device.
#[derive(Debug)]
pub struct ProfilerSourceCapabilityResult {
    pub cpus: Vec<ProfilerSourceCpuCapabilityRow>,
    pub capability_json: Vec<u16>,
    pub warnings: Vec<Vec<u16>>,
}

/// How a source profile was started.
#[derive(Debug)]
pub struct ProfilerSourceStartResult {
    pub success: bool,
    pub session_id: Vec<u16>,
    pub remote_bundle_path: Vec<u16>,
    pub accepted_settings_json: Vec<u16>,
    pub warnings: Vec<Vec<u16>>,
    pub message: Vec<u16>,
}

/// How far a source profile has come.
#[derive(Debug)]
pub struct ProfilerSourceStatusResult {
    pub state: i32,
    pub session_id: Vec<u16>,
    pub elapsed_secs: Double,
    pub progress_pct: Double,
    pub sample_count: u64,
    pub sample_weight_sum: u64,
    pub lost_count: u64,
    pub current_event_run: Vec<u16>,
    pub last_warning: Vec<u16>,
    pub remote_bundle_path: Vec<u16>,
    pub message: Vec<u16>,
}

/// How a source profile was stopped.
#[derive(Debug)]
pub struct ProfilerSourceStopResult {
    pub success: bool,
    pub session_id: Vec<u16>,
    pub remote_bundle_path: Vec<u16>,
    pub warnings: Vec<Vec<u16>>,
    pub message: Vec<u16>,
}

/// A device for measurements.
#[derive(Debug)]
pub struct ProfilerDaqDevice {
    pub name: Vec<u16>,
    pub product_type: Vec<u16>,
    pub serial_number: u32,
    pub ai_channel_count: u32,
}

/// The devices for measurements.
#[derive(Debug)]
pub struct ProfilerDaqDeviceList {
    pub devices: Vec<ProfilerDaqDevice>,
}

/// The names that a configuration holds.
#[derive(Debug)]
pub struct ProfilerDaqConfigInfo {
    pub channel_names: Vec<Vec<u16>>,
    pub power_pair_names: Vec<Vec<u16>>,
}

/// The errors of a measurement.
#[derive(Debug)]
pub struct ProfilerDaqErrors {
    pub messages: Vec<Vec<u16>>,
}

/// The values of one moment of a measurement.
#[derive(Debug)]
pub struct ProfilerDaqPollData {
    pub timestamp_ms: u64,
    pub power_values: Vec<Double>,
    pub power_names: Vec<Vec<u16>>,
    pub channel_values: Vec<Double>,
    pub channel_names: Vec<Vec<u16>>,
}

/// What a channel measured.
#[derive(Debug)]
pub struct ProfilerDaqChannelStats {
    pub name: Vec<u16>,
    pub mean: Double,
    pub min: Double,
    pub max: Double,
    pub rms: Double,
    pub color_rgb: u32,
    pub is_current: i32,
    pub pair_index: i32,
}

/// The power of a pair.
#[derive(Debug)]
pub struct ProfilerDaqPowerBreakdown {
    pub name: Vec<u16>,
    pub avg_power_mw: Double,
}

/// What a measurement gave.
#[derive(Debug)]
pub struct ProfilerDaqSummary {
    pub channels: Vec<ProfilerDaqChannelStats>,
    pub power_breakdown: Vec<ProfilerDaqPowerBreakdown>,
    pub total_power_mw: Double,
    pub measurement_time_s: Double,
}

} // verus!
