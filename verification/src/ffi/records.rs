//! What is handed over for each message.
use vstd::prelude::*;
use crate::adb::devices::DeviceInfo;
use crate::core_api::HealthInfo;
use crate::double::Double;
use crate::ffi::types::{
    ProfilerCmlCpuLatency, ProfilerCmlData, ProfilerCrCpuMetrics, ProfilerCrData, ProfilerDevice,
    ProfilerDeviceList, ProfilerFreqBucket, ProfilerFreqDistribution, ProfilerFtraceDiscoverResult,
    ProfilerFtraceEventInfo, ProfilerGcCounterValue, ProfilerGcData, ProfilerGcDiscoverResult,
    ProfilerGpuCounterInfo, ProfilerGpuInfo, ProfilerHealthInfo, ProfilerPackageInfo,
    ProfilerPackageList, ProfilerPerfettoStatus, ProfilerPmuDiscoverResult, ProfilerPmuEventInfo,
    ProfilerPmuHwCounter, ProfilerPmuHwCounterResult, ProfilerRawEventDelta, ProfilerRtbData,
    ProfilerRtbSummary, ProfilerShellResult, ProfilerSourceCapabilityDetail,
    ProfilerSourceCapabilityResult, ProfilerSourceCpuCapabilityRow, ProfilerSourceStartResult,
    ProfilerSourceStatusResult, ProfilerSourceStopResult, ProfilerTcData, ProfilerTcThreadMetrics,
    ProfilerTemperature, ProfilerThreadSnapshot, ProfilerTopApp, ProfilerVsyncSfBucket,
};
use crate::grpc::client::{PerfettoStatusInfo, TopAppInfo};
use crate::proto::{
    CmlCpuLatency, CmlDataPoint, CrCpuMetrics, CrDataPoint, DiscoverFtraceResponse,
    DiscoverPmuResponse, FreqBucket, FreqDistribution, FtraceEventInfo, GcCounterValue, GcDataPoint,
    GcDiscoverResponse, GpuCounterInfo, GpuInfo, PackageInfo, PmuEventInfo, PmuHwCounter,
    PmuHwCounterResponse, RawEventDelta, RtbDataPoint, RtbSummary, ShellResponse,
    SourceCapabilityDetail, SourceCpuCapabilityRow, SourceProfileCapabilityResponse,
    SourceProfileStartResponse, SourceProfileStatusResponse, SourceProfileStopResponse, TcDataPoint,
    TcThreadMetrics, TemperatureResponse, ThreadSnapshot, VsyncSfBucket,
};
use crate::text::texts;
use crate::wide::{
    all_units, all_wide, to_wide, to_wide_all, to_wide_unless_empty, wide, wide_unless_empty,
};

verus! {

/// A message that can be handed over.
pub trait HandOver: Sized {
    /// What is handed over for it.
    type Wide;

    /// Whether `w` is what is handed over for the message.
    spec fn handed(&self, w: &Self::Wide) -> bool;

    /// What is handed over for the message.
    fn hand_over(&self) -> (w: Self::Wide)
        ensures
            self.handed(&w),
    ;
}

/// Whether `w` is what is handed over for a list of messages.
pub open spec fn all_handed<T: HandOver>(v: Seq<T>, w: Seq<T::Wide>) -> bool {
    &&& w.len() == v.len()
    &&& forall|i: int| 0 <= i < v.len() ==> (#[trigger] v[i]).handed(&w[i])
}

/// What is handed over for a list of messages.
pub fn hand_over_all<T: HandOver>(v: &Vec<T>) -> (w: Vec<T::Wide>)
    ensures
        all_handed(v@, w@),
{
    let mut w: Vec<T::Wide> = Vec::new();
    let mut i: usize = 0;
    while i < v.len()
        invariant
            i <= v@.len(),
            w@.len() == i,
            forall|j: int| 0 <= j < i ==> (#[trigger] v@[j]).handed(&w@[j]),
        decreases v.len() - i,
    {
        let one = v[i].hand_over();
        w.push(one);
        i += 1;
    }
    w
}

/// The units of what may not be handed over.
pub open spec fn option_units(w: Option<Vec<u16>>) -> Option<Seq<u16>> {
    match w {
        Some(u) => Some(u@),
        None => None,
    }
}

/// The number that stands for a flag.
pub open spec fn flag_value(b: bool) -> i32 {
    if b {
        1
    } else {
        0
    }
}

fn flag(b: bool) -> (n: i32)
    ensures
        n == flag_value(b),
{
    if b {
        1
    } else {
        0
    }
}

fn copy_list<T: Copy>(v: &Vec<T>) -> (r: Vec<T>)
    ensures
        r@ == v@,
{
    let mut r: Vec<T> = Vec::new();
    let mut i: usize = 0;
    while i < v.len()
        invariant
            i <= v@.len(),
            r@ == v@.take(i as int),
        decreases v.len() - i,
    {
        r.push(v[i]);
        assert(v@.take(i as int + 1) =~= v@.take(i as int).push(v@[i as int]));
        i += 1;
    }
    assert(v@.take(v@.len() as int) =~= v@);
    r
}

impl HandOver for DeviceInfo<String> {
    type Wide = ProfilerDevice;

    open spec fn handed(&self, w: &ProfilerDevice) -> bool {
        &&& w.serial@ == wide(self.serial@)
        &&& w.model@ == wide(self.model@)
        &&& w.state@ == wide(self.state@)
        &&& w.product@ == wide(self.product@)
        &&& w.device_name@ == wide(self.device_name@)
    }

    fn hand_over(&self) -> (w: ProfilerDevice) {
        ProfilerDevice {
            serial: to_wide(self.serial.as_str()),
            model: to_wide(self.model.as_str()),
            state: to_wide(self.state.as_str()),
            product: to_wide(self.product.as_str()),
            device_name: to_wide(self.device_name.as_str()),
        }
    }
}

impl HandOver for TopAppInfo {
    type Wide = ProfilerTopApp;

    open spec fn handed(&self, w: &ProfilerTopApp) -> bool {
        &&& w.package_name@ == wide(self.package_name@)
        &&& w.activity@ == wide(self.activity@)
        &&& w.pid == self.pid
    }

    fn hand_over(&self) -> (w: ProfilerTopApp) {
        ProfilerTopApp {
            package_name: to_wide(self.package_name.as_str()),
            activity: to_wide(self.activity.as_str()),
            pid: self.pid,
        }
    }
}

impl HandOver for HealthInfo {
    type Wide = ProfilerHealthInfo;

    open spec fn handed(&self, w: &ProfilerHealthInfo) -> bool {
        &&& w.version@ == wide(self.version@)
        &&& w.status@ == wide(self.status@)
    }

    fn hand_over(&self) -> (w: ProfilerHealthInfo) {
        ProfilerHealthInfo {
            version: to_wide(self.version.as_str()),
            status: to_wide(self.status.as_str()),
        }
    }
}

impl HandOver for PerfettoStatusInfo {
    type Wide = ProfilerPerfettoStatus;

    open spec fn handed(&self, w: &ProfilerPerfettoStatus) -> bool {
        &&& w.state == self.state
        &&& w.progress_pct == self.progress_pct
        &&& w.output_path@ == wide(self.output_path@)
    }

    fn hand_over(&self) -> (w: ProfilerPerfettoStatus) {
        ProfilerPerfettoStatus {
            state: self.state,
            progress_pct: self.progress_pct,
            output_path: to_wide(self.output_path.as_str()),
        }
    }
}

impl HandOver for PackageInfo {
    type Wide = ProfilerPackageInfo;

    open spec fn handed(&self, w: &ProfilerPackageInfo) -> bool {
        &&& w.package_name@ == wide(self.package_name@)
        &&& w.apk_path@ == wide(self.apk_path@)
        &&& w.version_name@ == wide(self.version_name@)
        &&& w.app_label@ == wide(self.app_label@)
        &&& w.version_code == self.version_code
        &&& w.pid == self.pid
    }

    fn hand_over(&self) -> (w: ProfilerPackageInfo) {
        ProfilerPackageInfo {
            package_name: to_wide(self.package_name.as_str()),
            apk_path: to_wide(self.apk_path.as_str()),
            version_name: to_wide(self.version_name.as_str()),
            app_label: to_wide(self.app_label.as_str()),
            version_code: self.version_code,
            pid: self.pid,
        }
    }
}

impl HandOver for TemperatureResponse {
    type Wide = ProfilerTemperature;

    open spec fn handed(&self, w: &ProfilerTemperature) -> bool {
        &&& w.battery_temp_c == self.battery_temp_c
        &&& w.board_temp_c == self.board_temp_c
        &&& w.battery_level_pct == self.battery_level_pct
    }

    fn hand_over(&self) -> (w: ProfilerTemperature) {
        ProfilerTemperature {
            battery_temp_c: self.battery_temp_c,
            board_temp_c: self.board_temp_c,
            battery_level_pct: self.battery_level_pct,
        }
    }
}

impl HandOver for RtbDataPoint {
    type Wide = ProfilerRtbData;

    open spec fn handed(&self, w: &ProfilerRtbData) -> bool {
        &&& w.timestamp_ms == self.timestamp_ms
        &&& w.fps == self.fps
        &&& w.fps_dequeue == self.fps_dequeue
        &&& w.fps_queue == self.fps_queue
        &&& w.fps_present_fence == self.fps_present_fence
        &&& w.power_mw == self.power_mw
        &&& w.power_ma == self.power_ma
        &&& w.voltage_v == self.voltage_v
        &&& w.board_temp_c == self.board_temp_c
        &&& w.battery_temp_c == self.battery_temp_c
        &&& w.gpu_freq_mhz == self.gpu_freq_mhz
        &&& w.gpu_loading_pct == self.gpu_loading_pct
        &&& w.bcpu_freq_mhz == self.bcpu_freq_mhz
        &&& w.bcpu_usage_pct == self.bcpu_usage_pct
        &&& w.mcpu_freq_mhz == self.mcpu_freq_mhz
        &&& w.mcpu_usage_pct == self.mcpu_usage_pct
        &&& w.lcpu_freq_mhz == self.lcpu_freq_mhz
        &&& w.lcpu_usage_pct == self.lcpu_usage_pct
        &&& w.cpu_freqs_mhz@ == self.cpu_freqs_mhz@
        &&& w.cpu_usages_pct@ == self.cpu_usages_pct@
        &&& w.total_mips == self.total_mips
        &&& w.game_mips == self.game_mips
        &&& w.logical_mips == self.logical_mips
        &&& w.render_mips == self.render_mips
        &&& w.rhi_mips == self.rhi_mips
        &&& w.dsu_freq_mhz == self.dsu_freq_mhz
        &&& w.dram_freq_mhz == self.dram_freq_mhz
        &&& w.vcore_v == self.vcore_v
        &&& w.wss_kb == self.wss_kb
        &&& w.pss_kb == self.pss_kb
        &&& w.top_app_rss_kb == self.top_app_rss_kb
        &&& w.frame_times_ms@ == self.frame_times_ms@
        &&& w.cpu_time_ms == self.cpu_time_ms
        &&& w.gpu_time_ms == self.gpu_time_ms
        &&& w.power_avg_mw == self.power_avg_mw
        &&& option_units(w.process_name) == wide_unless_empty(self.process_name@)
        &&& w.mem_total_kb == self.mem_total_kb
        &&& w.mem_available_kb == self.mem_available_kb
        &&& option_units(w.fps_diagnostic) == wide_unless_empty(self.fps_diagnostic@)
    }

    fn hand_over(&self) -> (w: ProfilerRtbData) {
        ProfilerRtbData {
            timestamp_ms: self.timestamp_ms,
            fps: self.fps,
            fps_dequeue: self.fps_dequeue,
            fps_queue: self.fps_queue,
            fps_present_fence: self.fps_present_fence,
            power_mw: self.power_mw,
            power_ma: self.power_ma,
            voltage_v: self.voltage_v,
            board_temp_c: self.board_temp_c,
            battery_temp_c: self.battery_temp_c,
            gpu_freq_mhz: self.gpu_freq_mhz,
            gpu_loading_pct: self.gpu_loading_pct,
            bcpu_freq_mhz: self.bcpu_freq_mhz,
            bcpu_usage_pct: self.bcpu_usage_pct,
            mcpu_freq_mhz: self.mcpu_freq_mhz,
            mcpu_usage_pct: self.mcpu_usage_pct,
            lcpu_freq_mhz: self.lcpu_freq_mhz,
            lcpu_usage_pct: self.lcpu_usage_pct,
            cpu_freqs_mhz: copy_list(&self.cpu_freqs_mhz),
            cpu_usages_pct: copy_list(&self.cpu_usages_pct),
            total_mips: self.total_mips,
            game_mips: self.game_mips,
            logical_mips: self.logical_mips,
            render_mips: self.render_mips,
            rhi_mips: self.rhi_mips,
            dsu_freq_mhz: self.dsu_freq_mhz,
            dram_freq_mhz: self.dram_freq_mhz,
            vcore_v: self.vcore_v,
            wss_kb: self.wss_kb,
            pss_kb: self.pss_kb,
            top_app_rss_kb: self.top_app_rss_kb,
            frame_times_ms: copy_list(&self.frame_times_ms),
            cpu_time_ms: self.cpu_time_ms,
            gpu_time_ms: self.gpu_time_ms,
            power_avg_mw: self.power_avg_mw,
            process_name: to_wide_unless_empty(self.process_name.as_str()),
            mem_total_kb: self.mem_total_kb,
            mem_available_kb: self.mem_available_kb,
            fps_diagnostic: to_wide_unless_empty(self.fps_diagnostic.as_str()),
        }
    }
}

impl HandOver for FreqBucket {
    type Wide = ProfilerFreqBucket;

    open spec fn handed(&self, w: &ProfilerFreqBucket) -> bool {
        &&& w.freq_mhz == self.freq_mhz
        &&& w.count == self.count
        &&& w.percentage == self.percentage
    }

    fn hand_over(&self) -> (w: ProfilerFreqBucket) {
        ProfilerFreqBucket {
            freq_mhz: self.freq_mhz,
            count: self.count,
            percentage: self.percentage,
        }
    }
}

impl HandOver for FreqDistribution {
    type Wide = ProfilerFreqDistribution;

    open spec fn handed(&self, w: &ProfilerFreqDistribution) -> bool {
        &&& w.component@ == wide(self.component@)
        &&& all_handed(self.buckets@, w.buckets@)
    }

    fn hand_over(&self) -> (w: ProfilerFreqDistribution) {
        ProfilerFreqDistribution {
            component: to_wide(self.component.as_str()),
            buckets: hand_over_all(&self.buckets),
        }
    }
}

impl HandOver for VsyncSfBucket {
    type Wide = ProfilerVsyncSfBucket;

    open spec fn handed(&self, w: &ProfilerVsyncSfBucket) -> bool {
        &&& w.multiple == self.multiple
        &&& w.center_ms == self.center_ms
        &&& w.count == self.count
        &&& w.percentage == self.percentage
    }

    fn hand_over(&self) -> (w: ProfilerVsyncSfBucket) {
        ProfilerVsyncSfBucket {
            multiple: self.multiple,
            center_ms: self.center_ms,
            count: self.count,
            percentage: self.percentage,
        }
    }
}

impl HandOver for RawEventDelta {
    type Wide = ProfilerRawEventDelta;

    open spec fn handed(&self, w: &ProfilerRawEventDelta) -> bool {
        &&& w.event_index == self.event_index
        &&& w.delta == self.delta
    }

    fn hand_over(&self) -> (w: ProfilerRawEventDelta) {
        ProfilerRawEventDelta {
            event_index: self.event_index,
            delta: self.delta,
        }
    }
}

impl HandOver for CrCpuMetrics {
    type Wide = ProfilerCrCpuMetrics;

    open spec fn handed(&self, w: &ProfilerCrCpuMetrics) -> bool {
        &&& w.cpu_num == self.cpu_num
        &&& w.cpu_freq_mhz == self.cpu_freq_mhz
        &&& w.cpu_usage_pct == self.cpu_usage_pct
        &&& w.mips == self.mips
        &&& w.mcps == self.mcps
        &&& w.cpi == self.cpi
        &&& w.execution_mcps == self.execution_mcps
        &&& w.stall_ratio_pct == self.stall_ratio_pct
        &&& w.be_stall_ratio_pct == self.be_stall_ratio_pct
        &&& w.fe_stall_ratio_pct == self.fe_stall_ratio_pct
        &&& w.stall_mcps == self.stall_mcps
        &&& w.l1d_refill_ratio_pct == self.l1d_refill_ratio_pct
        &&& w.l2d_refill_ratio_pct == self.l2d_refill_ratio_pct
        &&& w.l3d_refill_ratio_pct == self.l3d_refill_ratio_pct
        &&& w.llc_read_hit_ratio_pct == self.llc_read_hit_ratio_pct
        &&& w.l1d_mpki == self.l1d_mpki
        &&& w.l2d_mpki == self.l2d_mpki
        &&& w.l3d_mpki == self.l3d_mpki
        &&& w.branch_mpki == self.branch_mpki
        &&& w.dtlb_mpki == self.dtlb_mpki
        &&& w.itlb_mpki == self.itlb_mpki
        &&& w.branch_miss_rate_pct == self.branch_miss_rate_pct
        &&& all_handed(self.raw_event_deltas@, w.raw_event_deltas@)
    }

    fn hand_over(&self) -> (w: ProfilerCrCpuMetrics) {
        ProfilerCrCpuMetrics {
            cpu_num: self.cpu_num,
            cpu_freq_mhz: self.cpu_freq_mhz,
            cpu_usage_pct: self.cpu_usage_pct,
            mips: self.mips,
            mcps: self.mcps,
            cpi: self.cpi,
            execution_mcps: self.execution_mcps,
            stall_ratio_pct: self.stall_ratio_pct,
            be_stall_ratio_pct: self.be_stall_ratio_pct,
            fe_stall_ratio_pct: self.fe_stall_ratio_pct,
            stall_mcps: self.stall_mcps,
            l1d_refill_ratio_pct: self.l1d_refill_ratio_pct,
            l2d_refill_ratio_pct: self.l2d_refill_ratio_pct,
            l3d_refill_ratio_pct: self.l3d_refill_ratio_pct,
            llc_read_hit_ratio_pct: self.llc_read_hit_ratio_pct,
            l1d_mpki: self.l1d_mpki,
            l2d_mpki: self.l2d_mpki,
            l3d_mpki: self.l3d_mpki,
            branch_mpki: self.branch_mpki,
            dtlb_mpki: self.dtlb_mpki,
            itlb_mpki: self.itlb_mpki,
            branch_miss_rate_pct: self.branch_miss_rate_pct,
            raw_event_deltas: hand_over_all(&self.raw_event_deltas),
        }
    }
}

impl HandOver for CrDataPoint {
    type Wide = ProfilerCrData;

    open spec fn handed(&self, w: &ProfilerCrData) -> bool {
        &&& w.timestamp_ms == self.timestamp_ms
        &&& all_handed(self.cpus@, w.cpus@)
        &&& all_handed(self.kernel_cpus@, w.kernel_cpus@)
        &&& all_handed(self.include_cpus@, w.include_cpus@)
    }

    fn hand_over(&self) -> (w: ProfilerCrData) {
        ProfilerCrData {
            timestamp_ms: self.timestamp_ms,
            cpus: hand_over_all(&self.cpus),
            kernel_cpus: hand_over_all(&self.kernel_cpus),
            include_cpus: hand_over_all(&self.include_cpus),
        }
    }
}

impl HandOver for TcThreadMetrics {
    type Wide = ProfilerTcThreadMetrics;

    open spec fn handed(&self, w: &ProfilerTcThreadMetrics) -> bool {
        &&& w.thread_id == self.thread_id
        &&& w.thread_name@ == wide(self.thread_name@)
        &&& w.mips == self.mips
        &&& w.mcps == self.mcps
        &&& w.cpi == self.cpi
        &&& w.cpu_usage_pct == self.cpu_usage_pct
        &&& w.l1d_refill_ratio_pct == self.l1d_refill_ratio_pct
        &&& w.l1i_refill_ratio_pct == self.l1i_refill_ratio_pct
        &&& w.l2d_refill_ratio_pct == self.l2d_refill_ratio_pct
        &&& w.l3d_refill_ratio_pct == self.l3d_refill_ratio_pct
        &&& w.stall_ratio_pct == self.stall_ratio_pct
        &&& w.be_stall_ratio_pct == self.be_stall_ratio_pct
        &&& w.fe_stall_ratio_pct == self.fe_stall_ratio_pct
        &&& w.stall_mcps == self.stall_mcps
        &&& w.be_stall_mcps == self.be_stall_mcps
        &&& w.fe_stall_mcps == self.fe_stall_mcps
        &&& w.memory_instruction_pct == self.memory_instruction_pct
        &&& all_handed(self.raw_event_deltas@, w.raw_event_deltas@)
    }

    fn hand_over(&self) -> (w: ProfilerTcThreadMetrics) {
        ProfilerTcThreadMetrics {
            thread_id: self.thread_id,
            thread_name: to_wide(self.thread_name.as_str()),
            mips: self.mips,
            mcps: self.mcps,
            cpi: self.cpi,
            cpu_usage_pct: self.cpu_usage_pct,
            l1d_refill_ratio_pct: self.l1d_refill_ratio_pct,
            l1i_refill_ratio_pct: self.l1i_refill_ratio_pct,
            l2d_refill_ratio_pct: self.l2d_refill_ratio_pct,
            l3d_refill_ratio_pct: self.l3d_refill_ratio_pct,
            stall_ratio_pct: self.stall_ratio_pct,
            be_stall_ratio_pct: self.be_stall_ratio_pct,
            fe_stall_ratio_pct: self.fe_stall_ratio_pct,
            stall_mcps: self.stall_mcps,
            be_stall_mcps: self.be_stall_mcps,
            fe_stall_mcps: self.fe_stall_mcps,
            memory_instruction_pct: self.memory_instruction_pct,
            raw_event_deltas: hand_over_all(&self.raw_event_deltas),
        }
    }
}

impl HandOver for TcDataPoint {
    type Wide = ProfilerTcData;

    open spec fn handed(&self, w: &ProfilerTcData) -> bool {
        &&& w.timestamp_ms == self.timestamp_ms
        &&& all_handed(self.threads@, w.threads@)
        &&& all_handed(self.kernel_threads@, w.kernel_threads@)
    }

    fn hand_over(&self) -> (w: ProfilerTcData) {
        ProfilerTcData {
            timestamp_ms: self.timestamp_ms,
            threads: hand_over_all(&self.threads),
            kernel_threads: hand_over_all(&self.kernel_threads),
        }
    }
}

impl HandOver for CmlCpuLatency {
    type Wide = ProfilerCmlCpuLatency;

    open spec fn handed(&self, w: &ProfilerCmlCpuLatency) -> bool {
        &&& w.cpu_id == self.cpu_id
        &&& w.latency_ns == self.latency_ns
        &&& w.error == self.error
    }

    fn hand_over(&self) -> (w: ProfilerCmlCpuLatency) {
        ProfilerCmlCpuLatency {
            cpu_id: self.cpu_id,
            latency_ns: self.latency_ns,
            error: self.error,
        }
    }
}

impl HandOver for GcCounterValue {
    type Wide = ProfilerGcCounterValue;

    open spec fn handed(&self, w: &ProfilerGcCounterValue) -> bool {
        &&& w.counter_id == self.counter_id
        &&& w.value == self.value
    }

    fn hand_over(&self) -> (w: ProfilerGcCounterValue) {
        ProfilerGcCounterValue {
            counter_id: self.counter_id,
            value: self.value,
        }
    }
}

impl HandOver for GcDataPoint {
    type Wide = ProfilerGcData;

    open spec fn handed(&self, w: &ProfilerGcData) -> bool {
        &&& w.timestamp_ms == self.timestamp_ms
        &&& all_handed(self.counters@, w.counters@)
    }

    fn hand_over(&self) -> (w: ProfilerGcData) {
        ProfilerGcData {
            timestamp_ms: self.timestamp_ms,
            counters: hand_over_all(&self.counters),
        }
    }
}

impl HandOver for GpuInfo {
    type Wide = ProfilerGpuInfo;

    open spec fn handed(&self, w: &ProfilerGpuInfo) -> bool {
        &&& w.device_number == self.device_number
        &&& w.gpu_family@ == wide(self.gpu_family@)
        &&& w.num_shader_cores == self.num_shader_cores
        &&& w.num_exec_engines == self.num_execution_engines
        &&& w.bus_width == self.bus_width
        &&& w.product_id == self.product_id
    }

    fn hand_over(&self) -> (w: ProfilerGpuInfo) {
        ProfilerGpuInfo {
            device_number: self.device_number,
            gpu_family: to_wide(self.gpu_family.as_str()),
            num_shader_cores: self.num_shader_cores,
            num_exec_engines: self.num_execution_engines,
            bus_width: self.bus_width,
            product_id: self.product_id,
        }
    }
}

impl HandOver for GpuCounterInfo {
    type Wide = ProfilerGpuCounterInfo;

    open spec fn handed(&self, w: &ProfilerGpuCounterInfo) -> bool {
        &&& w.counter_id == self.counter_id
        &&& w.name@ == wide(self.name@)
        &&& w.units@ == wide(self.units@)
    }

    fn hand_over(&self) -> (w: ProfilerGpuCounterInfo) {
        ProfilerGpuCounterInfo {
            counter_id: self.counter_id,
            name: to_wide(self.name.as_str()),
            units: to_wide(self.units.as_str()),
        }
    }
}

impl HandOver for GcDiscoverResponse {
    type Wide = ProfilerGcDiscoverResult;

    open spec fn handed(&self, w: &ProfilerGcDiscoverResult) -> bool {
        &&& all_handed(self.gpus@, w.gpus@)
        &&& all_handed(self.available_counters@, w.counters@)
    }

    fn hand_over(&self) -> (w: ProfilerGcDiscoverResult) {
        ProfilerGcDiscoverResult {
            gpus: hand_over_all(&self.gpus),
            counters: hand_over_all(&self.available_counters),
        }
    }
}

impl HandOver for FtraceEventInfo {
    type Wide = ProfilerFtraceEventInfo;

    open spec fn handed(&self, w: &ProfilerFtraceEventInfo) -> bool {
        &&& w.category@ == wide(self.category@)
        &&& w.event_name@ == wide(self.event_name@)
    }

    fn hand_over(&self) -> (w: ProfilerFtraceEventInfo) {
        ProfilerFtraceEventInfo {
            category: to_wide(self.category.as_str()),
            event_name: to_wide(self.event_name.as_str()),
        }
    }
}

impl HandOver for DiscoverFtraceResponse {
    type Wide = ProfilerFtraceDiscoverResult;

    open spec fn handed(&self, w: &ProfilerFtraceDiscoverResult) -> bool {
        &&& all_handed(self.events@, w.events@)
        &&& w.ready == flag_value(self.ready)
    }

    fn hand_over(&self) -> (w: ProfilerFtraceDiscoverResult) {
        ProfilerFtraceDiscoverResult {
            events: hand_over_all(&self.events),
            ready: flag(self.ready),
        }
    }
}

impl HandOver for PmuEventInfo {
    type Wide = ProfilerPmuEventInfo;

    open spec fn handed(&self, w: &ProfilerPmuEventInfo) -> bool {
        &&& w.index == self.index
        &&& w.name@ == wide(self.name@)
        &&& w.code == self.code
        &&& w.category@ == wide(self.category@)
        &&& w.description@ == wide(self.description@)
        &&& w.is_core == flag_value(self.is_core)
        &&& w.is_supported == flag_value(self.is_supported)
    }

    fn hand_over(&self) -> (w: ProfilerPmuEventInfo) {
        ProfilerPmuEventInfo {
            index: self.index,
            name: to_wide(self.name.as_str()),
            code: self.code,
            category: to_wide(self.category.as_str()),
            description: to_wide(self.description.as_str()),
            is_core: flag(self.is_core),
            is_supported: flag(self.is_supported),
        }
    }
}

impl HandOver for DiscoverPmuResponse {
    type Wide = ProfilerPmuDiscoverResult;

    open spec fn handed(&self, w: &ProfilerPmuDiscoverResult) -> bool {
        &&& all_handed(self.events@, w.events@)
        &&& w.ready == flag_value(self.ready)
    }

    fn hand_over(&self) -> (w: ProfilerPmuDiscoverResult) {
        ProfilerPmuDiscoverResult {
            events: hand_over_all(&self.events),
            ready: flag(self.ready),
        }
    }
}

impl HandOver for PmuHwCounter {
    type Wide = ProfilerPmuHwCounter;

    open spec fn handed(&self, w: &ProfilerPmuHwCounter) -> bool {
        &&& w.cpu == self.cpu
        &&& w.counter_count == self.counter_count
    }

    fn hand_over(&self) -> (w: ProfilerPmuHwCounter) {
        ProfilerPmuHwCounter {
            cpu: self.cpu,
            counter_count: self.counter_count,
        }
    }
}

impl HandOver for PmuHwCounterResponse {
    type Wide = ProfilerPmuHwCounterResult;

    open spec fn handed(&self, w: &ProfilerPmuHwCounterResult) -> bool {
        &&& all_handed(self.cpus@, w.counters@)
        &&& w.ready == flag_value(self.ready)
    }

    fn hand_over(&self) -> (w: ProfilerPmuHwCounterResult) {
        ProfilerPmuHwCounterResult {
            counters: hand_over_all(&self.cpus),
            ready: flag(self.ready),
        }
    }
}

impl HandOver for SourceCapabilityDetail {
    type Wide = ProfilerSourceCapabilityDetail;

    open spec fn handed(&self, w: &ProfilerSourceCapabilityDetail) -> bool {
        &&& w.event_key@ == wide(self.event_key@)
        &&& w.raw_event_name@ == wide(self.raw_event_name@)
        &&& w.event_source@ == wide(self.event_source@)
        &&& w.event_type@ == wide(self.event_type@)
        &&& w.config@ == wide(self.config@)
        &&& w.supported == self.supported
        &&& w.errno == self.errno
        &&& w.failure_reason@ == wide(self.failure_reason@)
        &&& w.kernel_path@ == wide(self.kernel_path@)
        &&& w.sysfs_path@ == wide(self.sysfs_path@)
    }

    fn hand_over(&self) -> (w: ProfilerSourceCapabilityDetail) {
        ProfilerSourceCapabilityDetail {
            event_key: to_wide(self.event_key.as_str()),
            raw_event_name: to_wide(self.raw_event_name.as_str()),
            event_source: to_wide(self.event_source.as_str()),
            event_type: to_wide(self.event_type.as_str()),
            config: to_wide(self.config.as_str()),
            supported: self.supported,
            errno: self.errno,
            failure_reason: to_wide(self.failure_reason.as_str()),
            kernel_path: to_wide(self.kernel_path.as_str()),
            sysfs_path: to_wide(self.sysfs_path.as_str()),
        }
    }
}

impl HandOver for SourceCpuCapabilityRow {
    type Wide = ProfilerSourceCpuCapabilityRow;

    open spec fn handed(&self, w: &ProfilerSourceCpuCapabilityRow) -> bool {
        &&& w.cpu == self.cpu
        &&& w.cluster@ == wide(self.cluster@)
        &&& w.spe == self.spe
        &&& w.cycles == self.cycles
        &&& w.instructions == self.instructions
        &&& w.cache == self.cache
        &&& w.branch == self.branch
        &&& w.callchain == self.callchain
        &&& w.source_sample_fields == self.source_sample_fields
        &&& all_handed(self.details@, w.details@)
    }

    fn hand_over(&self) -> (w: ProfilerSourceCpuCapabilityRow) {
        ProfilerSourceCpuCapabilityRow {
            cpu: self.cpu,
            cluster: to_wide(self.cluster.as_str()),
            spe: self.spe,
            cycles: self.cycles,
            instructions: self.instructions,
            cache: self.cache,
            branch: self.branch,
            callchain: self.callchain,
            source_sample_fields: self.source_sample_fields,
            details: hand_over_all(&self.details),
        }
    }
}

impl HandOver for SourceProfileCapabilityResponse {
    type Wide = ProfilerSourceCapabilityResult;

    open spec fn handed(&self, w: &ProfilerSourceCapabilityResult) -> bool {
        &&& all_handed(self.cpus@, w.cpus@)
        &&& w.capability_json@ == wide(self.capability_json@)
        &&& all_units(w.warnings@) == all_wide(texts(self.warnings@))
    }

    fn hand_over(&self) -> (w: ProfilerSourceCapabilityResult) {
        ProfilerSourceCapabilityResult {
            cpus: hand_over_all(&self.cpus),
            capability_json: to_wide(self.capability_json.as_str()),
            warnings: to_wide_all(&self.warnings),
        }
    }
}

impl HandOver for SourceProfileStartResponse {
    type Wide = ProfilerSourceStartResult;

    open spec fn handed(&self, w: &ProfilerSourceStartResult) -> bool {
        &&& w.success == self.success
        &&& w.session_id@ == wide(self.session_id@)
        &&& w.remote_bundle_path@ == wide(self.remote_bundle_path@)
        &&& w.accepted_settings_json@ == wide(self.accepted_settings_json@)
        &&& all_units(w.warnings@) == all_wide(texts(self.warnings@))
        &&& w.message@ == wide(self.message@)
    }

    fn hand_over(&self) -> (w: ProfilerSourceStartResult) {
        ProfilerSourceStartResult {
            success: self.success,
            session_id: to_wide(self.session_id.as_str()),
            remote_bundle_path: to_wide(self.remote_bundle_path.as_str()),
            accepted_settings_json: to_wide(self.accepted_settings_json.as_str()),
            warnings: to_wide_all(&self.warnings),
            message: to_wide(self.message.as_str()),
        }
    }
}

impl HandOver for SourceProfileStatusResponse {
    type Wide = ProfilerSourceStatusResult;

    open spec fn handed(&self, w: &ProfilerSourceStatusResult) -> bool {
        &&& w.state == self.state
        &&& w.session_id@ == wide(self.session_id@)
        &&& w.elapsed_secs == self.elapsed_secs
        &&& w.progress_pct == self.progress_pct
        &&& w.sample_count == self.sample_count
        &&& w.sample_weight_sum == self.sample_weight_sum
        &&& w.lost_count == self.lost_count
        &&& w.current_event_run@ == wide(self.current_event_run@)
        &&& w.last_warning@ == wide(self.last_warning@)
        &&& w.remote_bundle_path@ == wide(self.remote_bundle_path@)
        &&& w.message@ == wide(self.message@)
    }

    fn hand_over(&self) -> (w: ProfilerSourceStatusResult) {
        ProfilerSourceStatusResult {
            state: self.state,
            session_id: to_wide(self.session_id.as_str()),
            elapsed_secs: self.elapsed_secs,
            progress_pct: self.progress_pct,
            sample_count: self.sample_count,
            sample_weight_sum: self.sample_weight_sum,
            lost_count: self.lost_count,
            current_event_run: to_wide(self.current_event_run.as_str()),
            last_warning: to_wide(self.last_warning.as_str()),
            remote_bundle_path: to_wide(self.remote_bundle_path.as_str()),
            message: to_wide(self.message.as_str()),
        }
    }
}

impl HandOver for SourceProfileStopResponse {
    type Wide = ProfilerSourceStopResult;

    open spec fn handed(&self, w: &ProfilerSourceStopResult) -> bool {
        &&& w.success == self.success
        &&& w.session_id@ == wide(self.session_id@)
        &&& w.remote_bundle_path@ == wide(self.remote_bundle_path@)
        &&& all_units(w.warnings@) == all_wide(texts(self.warnings@))
        &&& w.message@ == wide(self.message@)
    }

    fn hand_over(&self) -> (w: ProfilerSourceStopResult) {
        ProfilerSourceStopResult {
            success: self.success,
            session_id: to_wide(self.session_id.as_str()),
            remote_bundle_path: to_wide(self.remote_bundle_path.as_str()),
            warnings: to_wide_all(&self.warnings),
            message: to_wide(self.message.as_str()),
        }
    }
}

// ---------------------------------------------------------------------------
// The summary of a recording
// ---------------------------------------------------------------------------

impl HandOver for ThreadSnapshot {
    type Wide = ProfilerThreadSnapshot;

    open spec fn handed(&self, w: &ProfilerThreadSnapshot) -> bool {
        &&& w.tid == self.tid
        &&& w.tgid == self.tgid
        &&& option_units(w.name) == Some(wide(self.name@))
        &&& w.loading_pct == self.loading_pct
        &&& w.c0_pct == self.c0_pct
        &&& w.c1_pct == self.c1_pct
        &&& w.c2_pct == self.c2_pct
        &&& w.runnable_pct == self.runnable_pct
        &&& w.mips == self.mips
        &&& w.mcps == self.mcps
        &&& w.cpi == self.cpi
    }

    fn hand_over(&self) -> (w: ProfilerThreadSnapshot) {
        ProfilerThreadSnapshot {
            tid: self.tid,
            tgid: self.tgid,
            name: Some(to_wide(self.name.as_str())),
            loading_pct: self.loading_pct,
            c0_pct: self.c0_pct,
            c1_pct: self.c1_pct,
            c2_pct: self.c2_pct,
            runnable_pct: self.runnable_pct,
            mips: self.mips,
            mcps: self.mcps,
            cpi: self.cpi,
        }
    }
}

/// Whether `w` stands for a thread that was not there.
pub open spec fn no_thread(w: ProfilerThreadSnapshot) -> bool {
    &&& w.tid == 0
    &&& w.tgid == 0
    &&& w.name is None
    &&& w.loading_pct == Double::nought()
    &&& w.c0_pct == Double::nought()
    &&& w.c1_pct == Double::nought()
    &&& w.c2_pct == Double::nought()
    &&& w.runnable_pct == Double::nought()
    &&& w.mips == Double::nought()
    &&& w.mcps == Double::nought()
    &&& w.cpi == Double::nought()
}

/// What stands for a thread that was not there.
pub fn empty_thread_snapshot() -> (w: ProfilerThreadSnapshot)
    ensures
        no_thread(w),
{
    let z = Double::zero();
    ProfilerThreadSnapshot {
        tid: 0,
        tgid: 0,
        name: None,
        loading_pct: z,
        c0_pct: z,
        c1_pct: z,
        c2_pct: z,
        runnable_pct: z,
        mips: z,
        mcps: z,
        cpi: z,
    }
}

/// Whether `w` is what is handed over for a thread that may not be there.
pub open spec fn thread_handed(t: Option<ThreadSnapshot>, w: ProfilerThreadSnapshot) -> bool {
    match t {
        Some(t) => t.handed(&w),
        None => no_thread(w),
    }
}

/// What is handed over for a thread that may not be there.
pub fn thread_snapshot_to_ffi(t: &Option<ThreadSnapshot>) -> (w: ProfilerThreadSnapshot)
    ensures
        thread_handed(*t, w),
{
    match t {
        Some(t) => t.hand_over(),
        None => empty_thread_snapshot(),
    }
}

impl HandOver for RtbSummary {
    type Wide = ProfilerRtbSummary;

    open spec fn handed(&self, w: &ProfilerRtbSummary) -> bool {
        &&& all_handed(self.top_threads@, w.top_threads@)
        &&& all_handed(self.freq_distributions@, w.freq_distributions@)
        &&& thread_handed(self.logical_thread, w.logical_thread)
        &&& thread_handed(self.render_thread, w.render_thread)
        &&& thread_handed(self.rhi_thread, w.rhi_thread)
        &&& w.start_temp == self.start_temp
        &&& w.end_temp == self.end_temp
        &&& w.frame_times_ms@ == self.frame_times_ms@
        &&& all_handed(self.vsync_sf_buckets@, w.vsync_sf_buckets@)
        &&& w.vsync_sf_base_interval_ms == self.vsync_sf_base_interval_ms
    }

    fn hand_over(&self) -> (w: ProfilerRtbSummary) {
        ProfilerRtbSummary {
            top_threads: hand_over_all(&self.top_threads),
            freq_distributions: hand_over_all(&self.freq_distributions),
            logical_thread: thread_snapshot_to_ffi(&self.logical_thread),
            render_thread: thread_snapshot_to_ffi(&self.render_thread),
            rhi_thread: thread_snapshot_to_ffi(&self.rhi_thread),
            start_temp: self.start_temp,
            end_temp: self.end_temp,
            frame_times_ms: copy_list(&self.frame_times_ms),
            vsync_sf_buckets: hand_over_all(&self.vsync_sf_buckets),
            vsync_sf_base_interval_ms: self.vsync_sf_base_interval_ms,
        }
    }
}

// ---------------------------------------------------------------------------
// Lists, shell commands and polls
// ---------------------------------------------------------------------------

/// What is handed over for the devices; none where they could not be listed.
pub fn device_list_to_ffi(devices: &Option<Vec<DeviceInfo<String>>>) -> (w: ProfilerDeviceList)
    ensures
        match devices {
            Some(d) => all_handed(d@, w.devices@),
            None => w.devices@.len() == 0,
        },
{
    match devices {
        Some(d) => ProfilerDeviceList { devices: hand_over_all(d) },
        None => ProfilerDeviceList { devices: Vec::new() },
    }
}

/// What is handed over for the packages; none where they could not be listed.
pub fn package_list_to_ffi(packages: &Option<Vec<PackageInfo>>) -> (w: ProfilerPackageList)
    ensures
        match packages {
            Some(p) => all_handed(p@, w.packages@),
            None => w.packages@.len() == 0,
        },
{
    match packages {
        Some(p) => ProfilerPackageList { packages: hand_over_all(p) },
        None => ProfilerPackageList { packages: Vec::new() },
    }
}

/// What is handed over for a shell command; a code of its own and no texts
/// where it could not be run.
pub fn shell_result_to_ffi(answer: &Option<ShellResponse>) -> (w: ProfilerShellResult)
    ensures
        match answer {
            Some(a) => w.exit_code == a.exit_code && option_units(w.stdout) == Some(wide(a.stdout@))
                && option_units(w.stderr) == Some(wide(a.stderr@)),
            None => w.exit_code == -1 && w.stdout is None && w.stderr is None,
        },
{
    match answer {
        Some(a) => ProfilerShellResult {
            exit_code: a.exit_code,
            stdout: Some(to_wide(a.stdout.as_str())),
            stderr: Some(to_wide(a.stderr.as_str())),
        },
        None => ProfilerShellResult { exit_code: -1, stdout: None, stderr: None },
    }
}

/// Whether `w` is what is handed over for what a poll found.
pub open spec fn poll_handed<T: HandOver>(polled: Option<T>, w: Option<T::Wide>) -> bool {
    match polled {
        Some(p) => w is Some && p.handed(&w->Some_0),
        None => w is None,
    }
}

/// What is handed over for what a poll found.
pub fn hand_over_polled<T: HandOver>(polled: &Option<T>) -> (w: Option<T::Wide>)
    ensures
        poll_handed(*polled, w),
{
    match polled {
        Some(p) => Some(p.hand_over()),
        None => None,
    }
}

/// What is handed over for what a poll of a latency benchmark found: whether
/// the benchmark is done is handed over even where nothing was found.
pub fn cml_data_to_ffi(polled: &Option<CmlDataPoint>, finished: bool) -> (w: ProfilerCmlData)
    ensures
        w.is_finished == finished,
        match polled {
            Some(p) => w.footprint_kb == p.footprint_kb && all_handed(p.cpus@, w.cpus@),
            None => w.footprint_kb == 0 && w.cpus@.len() == 0,
        },
{
    match polled {
        Some(p) => ProfilerCmlData {
            footprint_kb: p.footprint_kb,
            cpus: hand_over_all(&p.cpus),
            is_finished: finished,
        },
        None => ProfilerCmlData { footprint_kb: 0, cpus: Vec::new(), is_finished: finished },
    }
}

} // verus!
