//! What callers read of what is handed over: each field is that of the
//! message, and each text comes back as it was.
use vstd::prelude::*;
use crate::adb::devices::DeviceInfo;
use crate::core_api::HealthInfo;
use crate::double::Double;
use crate::ffi::records::{HandOver, poll_handed, thread_handed};
use crate::ffi::types::{
    ProfilerCmlCpuLatency, ProfilerCrCpuMetrics, ProfilerCrData, ProfilerDevice, ProfilerFreqBucket,
    ProfilerFreqDistribution, ProfilerFtraceDiscoverResult, ProfilerFtraceEventInfo,
    ProfilerGcCounterValue, ProfilerGcData, ProfilerGcDiscoverResult, ProfilerGpuCounterInfo,
    ProfilerGpuInfo, ProfilerHealthInfo, ProfilerPackageInfo, ProfilerPerfettoStatus,
    ProfilerPmuDiscoverResult, ProfilerPmuEventInfo, ProfilerPmuHwCounter,
    ProfilerPmuHwCounterResult, ProfilerRawEventDelta, ProfilerRtbData, ProfilerRtbSummary,
    ProfilerSourceCapabilityDetail, ProfilerSourceCapabilityResult, ProfilerSourceCpuCapabilityRow,
    ProfilerSourceStartResult, ProfilerSourceStatusResult, ProfilerSourceStopResult, ProfilerTcData,
    ProfilerTcThreadMetrics, ProfilerTemperature, ProfilerThreadSnapshot, ProfilerTopApp,
    ProfilerVsyncSfBucket,
};
use crate::grpc::client::{PerfettoStatusInfo, TopAppInfo};
use crate::proto::{
    CmlCpuLatency, CrCpuMetrics, CrDataPoint, DiscoverFtraceResponse, DiscoverPmuResponse,
    FreqBucket, FreqDistribution, FtraceEventInfo, GcCounterValue, GcDataPoint, GcDiscoverResponse,
    GpuCounterInfo, GpuInfo, PackageInfo, PmuEventInfo, PmuHwCounter, PmuHwCounterResponse,
    RawEventDelta, RtbDataPoint, RtbSummary, SourceCapabilityDetail, SourceCpuCapabilityRow,
    SourceProfileCapabilityResponse, SourceProfileStartResponse, SourceProfileStatusResponse,
    SourceProfileStopResponse, TcDataPoint, TcThreadMetrics, TemperatureResponse, ThreadSnapshot,
    VsyncSfBucket,
};
use crate::text::texts;
use crate::wide::{
    all_units, all_wide, law_wide_text_ends_with_zero, law_wide_text_reads_back, narrow, wide,
};

verus! {

/// Whether a caller who reads `w` up to its zero reads the text `s`. A text
/// with a zero in it cannot be told.
pub open spec fn reads(w: Seq<u16>, s: Seq<char>) -> bool {
    &&& w.len() > 0
    &&& w.last() == 0
    &&& !s.contains('\0') ==> narrow(Some(w)) == s
}

/// Whether a caller reads the texts of a list in their order.
pub open spec fn all_read(w: Seq<Vec<u16>>, s: Seq<String>) -> bool {
    &&& w.len() == s.len()
    &&& forall|i: int| 0 <= i < s.len() ==> reads((#[trigger] w[i])@, s[i]@)
}

pub proof fn lemma_reads(s: Seq<char>)
    ensures
        reads(wide(s), s),
{
    law_wide_text_ends_with_zero(s);
    if !s.contains('\0') {
        law_wide_text_reads_back(s);
    }
}

proof fn lemma_all_read(w: Seq<Vec<u16>>, s: Seq<String>)
    requires
        all_units(w) == all_wide(texts(s)),
    ensures
        all_read(w, s),
{
    assert(all_units(w).len() == w.len());
    assert(all_wide(texts(s)).len() == s.len());
    assert forall|i: int| 0 <= i < s.len() implies reads((#[trigger] w[i])@, s[i]@) by {
        assert(all_units(w)[i] == w[i]@);
        assert(all_wide(texts(s))[i] == wide(texts(s)[i]));
        lemma_reads(s[i]@);
    }
}

/// What a caller reads of a device.
pub proof fn law_device_is_handed_over(m: DeviceInfo<String>, w: ProfilerDevice)
    requires
        m.handed(&w),
    ensures
        reads(w.serial@, m.serial@),
        reads(w.model@, m.model@),
        reads(w.state@, m.state@),
        reads(w.product@, m.product@),
        reads(w.device_name@, m.device_name@),
{
    lemma_reads(m.serial@);
    lemma_reads(m.model@);
    lemma_reads(m.state@);
    lemma_reads(m.product@);
    lemma_reads(m.device_name@);
}

/// What a caller reads of the app in front.
pub proof fn law_top_app_is_handed_over(m: TopAppInfo, w: ProfilerTopApp)
    requires
        m.handed(&w),
    ensures
        reads(w.package_name@, m.package_name@),
        reads(w.activity@, m.activity@),
        w.pid == m.pid,
{
    lemma_reads(m.package_name@);
    lemma_reads(m.activity@);
}

/// What a caller reads of the daemon's health.
pub proof fn law_health_is_handed_over(m: HealthInfo, w: ProfilerHealthInfo)
    requires
        m.handed(&w),
    ensures
        reads(w.version@, m.version@),
        reads(w.status@, m.status@),
{
    lemma_reads(m.version@);
    lemma_reads(m.status@);
}

/// What a caller reads of the state of a trace.
pub proof fn law_trace_state_is_handed_over(m: PerfettoStatusInfo, w: ProfilerPerfettoStatus)
    requires
        m.handed(&w),
    ensures
        w.state == m.state,
        w.progress_pct == m.progress_pct,
        reads(w.output_path@, m.output_path@),
{
    lemma_reads(m.output_path@);
}

/// What a caller reads of a package.
pub proof fn law_package_is_handed_over(m: PackageInfo, w: ProfilerPackageInfo)
    requires
        m.handed(&w),
    ensures
        reads(w.package_name@, m.package_name@),
        reads(w.apk_path@, m.apk_path@),
        reads(w.version_name@, m.version_name@),
        reads(w.app_label@, m.app_label@),
        w.version_code == m.version_code,
        w.pid == m.pid,
{
    lemma_reads(m.package_name@);
    lemma_reads(m.apk_path@);
    lemma_reads(m.version_name@);
    lemma_reads(m.app_label@);
}

/// What a caller reads of the temperatures.
pub proof fn law_temperature_is_handed_over(m: TemperatureResponse, w: ProfilerTemperature)
    requires
        m.handed(&w),
    ensures
        w.battery_temp_c == m.battery_temp_c,
        w.board_temp_c == m.board_temp_c,
        w.battery_level_pct == m.battery_level_pct,
{
}

/// What a caller reads of a sample.
pub proof fn law_sample_is_handed_over(m: RtbDataPoint, w: ProfilerRtbData)
    requires
        m.handed(&w),
    ensures
        w.timestamp_ms == m.timestamp_ms,
        w.fps == m.fps,
        w.fps_dequeue == m.fps_dequeue,
        w.fps_queue == m.fps_queue,
        w.fps_present_fence == m.fps_present_fence,
        w.power_mw == m.power_mw,
        w.power_ma == m.power_ma,
        w.voltage_v == m.voltage_v,
        w.board_temp_c == m.board_temp_c,
        w.battery_temp_c == m.battery_temp_c,
        w.gpu_freq_mhz == m.gpu_freq_mhz,
        w.gpu_loading_pct == m.gpu_loading_pct,
        w.bcpu_freq_mhz == m.bcpu_freq_mhz,
        w.bcpu_usage_pct == m.bcpu_usage_pct,
        w.mcpu_freq_mhz == m.mcpu_freq_mhz,
        w.mcpu_usage_pct == m.mcpu_usage_pct,
        w.lcpu_freq_mhz == m.lcpu_freq_mhz,
        w.lcpu_usage_pct == m.lcpu_usage_pct,
        w.cpu_freqs_mhz@ == m.cpu_freqs_mhz@,
        w.cpu_usages_pct@ == m.cpu_usages_pct@,
        w.total_mips == m.total_mips,
        w.game_mips == m.game_mips,
        w.logical_mips == m.logical_mips,
        w.render_mips == m.render_mips,
        w.rhi_mips == m.rhi_mips,
        w.dsu_freq_mhz == m.dsu_freq_mhz,
        w.dram_freq_mhz == m.dram_freq_mhz,
        w.vcore_v == m.vcore_v,
        w.wss_kb == m.wss_kb,
        w.pss_kb == m.pss_kb,
        w.top_app_rss_kb == m.top_app_rss_kb,
        w.frame_times_ms@ == m.frame_times_ms@,
        w.cpu_time_ms == m.cpu_time_ms,
        w.gpu_time_ms == m.gpu_time_ms,
        w.power_avg_mw == m.power_avg_mw,
        m.process_name@.len() == 0 ==> w.process_name is None,
        m.process_name@.len() > 0 ==> w.process_name is Some && reads(
            w.process_name->Some_0@,
            m.process_name@,
        ),
        w.mem_total_kb == m.mem_total_kb,
        w.mem_available_kb == m.mem_available_kb,
        m.fps_diagnostic@.len() == 0 ==> w.fps_diagnostic is None,
        m.fps_diagnostic@.len() > 0 ==> w.fps_diagnostic is Some && reads(
            w.fps_diagnostic->Some_0@,
            m.fps_diagnostic@,
        ),
{
    lemma_reads(m.process_name@);
    lemma_reads(m.fps_diagnostic@);
}

/// What a caller reads of a frequency.
pub proof fn law_frequency_is_handed_over(m: FreqBucket, w: ProfilerFreqBucket)
    requires
        m.handed(&w),
    ensures
        w.freq_mhz == m.freq_mhz,
        w.count == m.count,
        w.percentage == m.percentage,
{
}

/// What a caller reads of a component's frequencies.
pub proof fn law_frequencies_is_handed_over(m: FreqDistribution, w: ProfilerFreqDistribution)
    requires
        m.handed(&w),
    ensures
        reads(w.component@, m.component@),
        w.buckets@.len() == m.buckets@.len(),
        forall|i: int|
            0 <= i < m.buckets@.len() ==> (#[trigger] m.buckets@[i]).handed(&w.buckets@[i]),
{
    lemma_reads(m.component@);
}

/// What a caller reads of a bucket of intervals.
pub proof fn law_interval_bucket_is_handed_over(m: VsyncSfBucket, w: ProfilerVsyncSfBucket)
    requires
        m.handed(&w),
    ensures
        w.multiple == m.multiple,
        w.center_ms == m.center_ms,
        w.count == m.count,
        w.percentage == m.percentage,
{
}

/// What a caller reads of an event's count.
pub proof fn law_event_count_is_handed_over(m: RawEventDelta, w: ProfilerRawEventDelta)
    requires
        m.handed(&w),
    ensures
        w.event_index == m.event_index,
        w.delta == m.delta,
{
}

/// What a caller reads of a processor's counters.
pub proof fn law_processor_counters_is_handed_over(m: CrCpuMetrics, w: ProfilerCrCpuMetrics)
    requires
        m.handed(&w),
    ensures
        w.cpu_num == m.cpu_num,
        w.cpu_freq_mhz == m.cpu_freq_mhz,
        w.cpu_usage_pct == m.cpu_usage_pct,
        w.mips == m.mips,
        w.mcps == m.mcps,
        w.cpi == m.cpi,
        w.execution_mcps == m.execution_mcps,
        w.stall_ratio_pct == m.stall_ratio_pct,
        w.be_stall_ratio_pct == m.be_stall_ratio_pct,
        w.fe_stall_ratio_pct == m.fe_stall_ratio_pct,
        w.stall_mcps == m.stall_mcps,
        w.l1d_refill_ratio_pct == m.l1d_refill_ratio_pct,
        w.l2d_refill_ratio_pct == m.l2d_refill_ratio_pct,
        w.l3d_refill_ratio_pct == m.l3d_refill_ratio_pct,
        w.llc_read_hit_ratio_pct == m.llc_read_hit_ratio_pct,
        w.l1d_mpki == m.l1d_mpki,
        w.l2d_mpki == m.l2d_mpki,
        w.l3d_mpki == m.l3d_mpki,
        w.branch_mpki == m.branch_mpki,
        w.dtlb_mpki == m.dtlb_mpki,
        w.itlb_mpki == m.itlb_mpki,
        w.branch_miss_rate_pct == m.branch_miss_rate_pct,
        w.raw_event_deltas@.len() == m.raw_event_deltas@.len(),
        forall|i: int|
            0 <= i < m.raw_event_deltas@.len() ==> (#[trigger] m.raw_event_deltas@[i]).handed(
                &w.raw_event_deltas@[i],
            ),
{
}

/// What a caller reads of the counters of all processors.
pub proof fn law_processors_is_handed_over(m: CrDataPoint, w: ProfilerCrData)
    requires
        m.handed(&w),
    ensures
        w.timestamp_ms == m.timestamp_ms,
        w.cpus@.len() == m.cpus@.len(),
        forall|i: int|
            0 <= i < m.cpus@.len() ==> (#[trigger] m.cpus@[i]).handed(&w.cpus@[i]),
        w.kernel_cpus@.len() == m.kernel_cpus@.len(),
        forall|i: int|
            0 <= i < m.kernel_cpus@.len() ==> (#[trigger] m.kernel_cpus@[i]).handed(
                &w.kernel_cpus@[i],
            ),
        w.include_cpus@.len() == m.include_cpus@.len(),
        forall|i: int|
            0 <= i < m.include_cpus@.len() ==> (#[trigger] m.include_cpus@[i]).handed(
                &w.include_cpus@[i],
            ),
{
}

/// What a caller reads of a thread's counters.
pub proof fn law_thread_counters_is_handed_over(m: TcThreadMetrics, w: ProfilerTcThreadMetrics)
    requires
        m.handed(&w),
    ensures
        w.thread_id == m.thread_id,
        reads(w.thread_name@, m.thread_name@),
        w.mips == m.mips,
        w.mcps == m.mcps,
        w.cpi == m.cpi,
        w.cpu_usage_pct == m.cpu_usage_pct,
        w.l1d_refill_ratio_pct == m.l1d_refill_ratio_pct,
        w.l1i_refill_ratio_pct == m.l1i_refill_ratio_pct,
        w.l2d_refill_ratio_pct == m.l2d_refill_ratio_pct,
        w.l3d_refill_ratio_pct == m.l3d_refill_ratio_pct,
        w.stall_ratio_pct == m.stall_ratio_pct,
        w.be_stall_ratio_pct == m.be_stall_ratio_pct,
        w.fe_stall_ratio_pct == m.fe_stall_ratio_pct,
        w.stall_mcps == m.stall_mcps,
        w.be_stall_mcps == m.be_stall_mcps,
        w.fe_stall_mcps == m.fe_stall_mcps,
        w.memory_instruction_pct == m.memory_instruction_pct,
        w.raw_event_deltas@.len() == m.raw_event_deltas@.len(),
        forall|i: int|
            0 <= i < m.raw_event_deltas@.len() ==> (#[trigger] m.raw_event_deltas@[i]).handed(
                &w.raw_event_deltas@[i],
            ),
{
    lemma_reads(m.thread_name@);
}

/// What a caller reads of the counters of all threads.
pub proof fn law_threads_is_handed_over(m: TcDataPoint, w: ProfilerTcData)
    requires
        m.handed(&w),
    ensures
        w.timestamp_ms == m.timestamp_ms,
        w.threads@.len() == m.threads@.len(),
        forall|i: int|
            0 <= i < m.threads@.len() ==> (#[trigger] m.threads@[i]).handed(&w.threads@[i]),
        w.kernel_threads@.len() == m.kernel_threads@.len(),
        forall|i: int|
            0 <= i < m.kernel_threads@.len() ==> (#[trigger] m.kernel_threads@[i]).handed(
                &w.kernel_threads@[i],
            ),
{
}

/// What a caller reads of a processor's latency.
pub proof fn law_latency_is_handed_over(m: CmlCpuLatency, w: ProfilerCmlCpuLatency)
    requires
        m.handed(&w),
    ensures
        w.cpu_id == m.cpu_id,
        w.latency_ns == m.latency_ns,
        w.error == m.error,
{
}

/// What a caller reads of a graphics counter's value.
pub proof fn law_graphics_value_is_handed_over(m: GcCounterValue, w: ProfilerGcCounterValue)
    requires
        m.handed(&w),
    ensures
        w.counter_id == m.counter_id,
        w.value == m.value,
{
}

/// What a caller reads of the graphics counters.
pub proof fn law_graphics_values_is_handed_over(m: GcDataPoint, w: ProfilerGcData)
    requires
        m.handed(&w),
    ensures
        w.timestamp_ms == m.timestamp_ms,
        w.counters@.len() == m.counters@.len(),
        forall|i: int|
            0 <= i < m.counters@.len() ==> (#[trigger] m.counters@[i]).handed(&w.counters@[i]),
{
}

/// What a caller reads of a graphics processor.
pub proof fn law_graphics_processor_is_handed_over(m: GpuInfo, w: ProfilerGpuInfo)
    requires
        m.handed(&w),
    ensures
        w.device_number == m.device_number,
        reads(w.gpu_family@, m.gpu_family@),
        w.num_shader_cores == m.num_shader_cores,
        w.num_exec_engines == m.num_execution_engines,
        w.bus_width == m.bus_width,
        w.product_id == m.product_id,
{
    lemma_reads(m.gpu_family@);
}

/// What a caller reads of a graphics counter.
pub proof fn law_graphics_counter_is_handed_over(m: GpuCounterInfo, w: ProfilerGpuCounterInfo)
    requires
        m.handed(&w),
    ensures
        w.counter_id == m.counter_id,
        reads(w.name@, m.name@),
        reads(w.units@, m.units@),
{
    lemma_reads(m.name@);
    lemma_reads(m.units@);
}

/// What a caller reads of what graphics processors there are.
pub proof fn law_graphics_processors_is_handed_over(
    m: GcDiscoverResponse,
    w: ProfilerGcDiscoverResult,
)
    requires
        m.handed(&w),
    ensures
        w.gpus@.len() == m.gpus@.len(),
        forall|i: int|
            0 <= i < m.gpus@.len() ==> (#[trigger] m.gpus@[i]).handed(&w.gpus@[i]),
        w.counters@.len() == m.available_counters@.len(),
        forall|i: int|
            0 <= i < m.available_counters@.len() ==> (#[trigger] m.available_counters@[i]).handed(
                &w.counters@[i],
            ),
{
}

/// What a caller reads of a trace event.
pub proof fn law_trace_event_is_handed_over(m: FtraceEventInfo, w: ProfilerFtraceEventInfo)
    requires
        m.handed(&w),
    ensures
        reads(w.category@, m.category@),
        reads(w.event_name@, m.event_name@),
{
    lemma_reads(m.category@);
    lemma_reads(m.event_name@);
}

/// What a caller reads of what trace events there are.
pub proof fn law_trace_events_is_handed_over(
    m: DiscoverFtraceResponse,
    w: ProfilerFtraceDiscoverResult,
)
    requires
        m.handed(&w),
    ensures
        w.events@.len() == m.events@.len(),
        forall|i: int|
            0 <= i < m.events@.len() ==> (#[trigger] m.events@[i]).handed(&w.events@[i]),
        m.ready ==> w.ready == 1,
        !m.ready ==> w.ready == 0,
{
}

/// What a caller reads of a hardware event.
pub proof fn law_hardware_event_is_handed_over(m: PmuEventInfo, w: ProfilerPmuEventInfo)
    requires
        m.handed(&w),
    ensures
        w.index == m.index,
        reads(w.name@, m.name@),
        w.code == m.code,
        reads(w.category@, m.category@),
        reads(w.description@, m.description@),
        m.is_core ==> w.is_core == 1,
        !m.is_core ==> w.is_core == 0,
        m.is_supported ==> w.is_supported == 1,
        !m.is_supported ==> w.is_supported == 0,
{
    lemma_reads(m.name@);
    lemma_reads(m.category@);
    lemma_reads(m.description@);
}

/// What a caller reads of what hardware events there are.
pub proof fn law_hardware_events_is_handed_over(
    m: DiscoverPmuResponse,
    w: ProfilerPmuDiscoverResult,
)
    requires
        m.handed(&w),
    ensures
        w.events@.len() == m.events@.len(),
        forall|i: int|
            0 <= i < m.events@.len() ==> (#[trigger] m.events@[i]).handed(&w.events@[i]),
        m.ready ==> w.ready == 1,
        !m.ready ==> w.ready == 0,
{
}

/// What a caller reads of a processor's number of counters.
pub proof fn law_counter_number_is_handed_over(m: PmuHwCounter, w: ProfilerPmuHwCounter)
    requires
        m.handed(&w),
    ensures
        w.cpu == m.cpu,
        w.counter_count == m.counter_count,
{
}

/// What a caller reads of how many counters the processors have.
pub proof fn law_counter_numbers_is_handed_over(
    m: PmuHwCounterResponse,
    w: ProfilerPmuHwCounterResult,
)
    requires
        m.handed(&w),
    ensures
        w.counters@.len() == m.cpus@.len(),
        forall|i: int|
            0 <= i < m.cpus@.len() ==> (#[trigger] m.cpus@[i]).handed(&w.counters@[i]),
        m.ready ==> w.ready == 1,
        !m.ready ==> w.ready == 0,
{
}

/// What a caller reads of one way to profile by source.
pub proof fn law_source_detail_is_handed_over(
    m: SourceCapabilityDetail,
    w: ProfilerSourceCapabilityDetail,
)
    requires
        m.handed(&w),
    ensures
        reads(w.event_key@, m.event_key@),
        reads(w.raw_event_name@, m.raw_event_name@),
        reads(w.event_source@, m.event_source@),
        reads(w.event_type@, m.event_type@),
        reads(w.config@, m.config@),
        w.supported == m.supported,
        w.errno == m.errno,
        reads(w.failure_reason@, m.failure_reason@),
        reads(w.kernel_path@, m.kernel_path@),
        reads(w.sysfs_path@, m.sysfs_path@),
{
    lemma_reads(m.event_key@);
    lemma_reads(m.raw_event_name@);
    lemma_reads(m.event_source@);
    lemma_reads(m.event_type@);
    lemma_reads(m.config@);
    lemma_reads(m.failure_reason@);
    lemma_reads(m.kernel_path@);
    lemma_reads(m.sysfs_path@);
}

/// What a caller reads of what a processor can profile by source.
pub proof fn law_source_row_is_handed_over(
    m: SourceCpuCapabilityRow,
    w: ProfilerSourceCpuCapabilityRow,
)
    requires
        m.handed(&w),
    ensures
        w.cpu == m.cpu,
        reads(w.cluster@, m.cluster@),
        w.spe == m.spe,
        w.cycles == m.cycles,
        w.instructions == m.instructions,
        w.cache == m.cache,
        w.branch == m.branch,
        w.callchain == m.callchain,
        w.source_sample_fields == m.source_sample_fields,
        w.details@.len() == m.details@.len(),
        forall|i: int|
            0 <= i < m.details@.len() ==> (#[trigger] m.details@[i]).handed(&w.details@[i]),
{
    lemma_reads(m.cluster@);
}

/// What a caller reads of what can be profiled by source.
pub proof fn law_source_capability_is_handed_over(
    m: SourceProfileCapabilityResponse,
    w: ProfilerSourceCapabilityResult,
)
    requires
        m.handed(&w),
    ensures
        w.cpus@.len() == m.cpus@.len(),
        forall|i: int|
            0 <= i < m.cpus@.len() ==> (#[trigger] m.cpus@[i]).handed(&w.cpus@[i]),
        reads(w.capability_json@, m.capability_json@),
        all_read(w.warnings@, m.warnings@),
{
    lemma_reads(m.capability_json@);
    lemma_all_read(w.warnings@, m.warnings@);
}

/// What a caller reads of the start of a profile by source.
pub proof fn law_source_start_is_handed_over(
    m: SourceProfileStartResponse,
    w: ProfilerSourceStartResult,
)
    requires
        m.handed(&w),
    ensures
        w.success == m.success,
        reads(w.session_id@, m.session_id@),
        reads(w.remote_bundle_path@, m.remote_bundle_path@),
        reads(w.accepted_settings_json@, m.accepted_settings_json@),
        all_read(w.warnings@, m.warnings@),
        reads(w.message@, m.message@),
{
    lemma_reads(m.session_id@);
    lemma_reads(m.remote_bundle_path@);
    lemma_reads(m.accepted_settings_json@);
    lemma_all_read(w.warnings@, m.warnings@);
    lemma_reads(m.message@);
}

/// What a caller reads of the state of a profile by source.
pub proof fn law_source_state_is_handed_over(
    m: SourceProfileStatusResponse,
    w: ProfilerSourceStatusResult,
)
    requires
        m.handed(&w),
    ensures
        w.state == m.state,
        reads(w.session_id@, m.session_id@),
        w.elapsed_secs == m.elapsed_secs,
        w.progress_pct == m.progress_pct,
        w.sample_count == m.sample_count,
        w.sample_weight_sum == m.sample_weight_sum,
        w.lost_count == m.lost_count,
        reads(w.current_event_run@, m.current_event_run@),
        reads(w.last_warning@, m.last_warning@),
        reads(w.remote_bundle_path@, m.remote_bundle_path@),
        reads(w.message@, m.message@),
{
    lemma_reads(m.session_id@);
    lemma_reads(m.current_event_run@);
    lemma_reads(m.last_warning@);
    lemma_reads(m.remote_bundle_path@);
    lemma_reads(m.message@);
}

/// What a caller reads of the end of a profile by source.
pub proof fn law_source_stop_is_handed_over(
    m: SourceProfileStopResponse,
    w: ProfilerSourceStopResult,
)
    requires
        m.handed(&w),
    ensures
        w.success == m.success,
        reads(w.session_id@, m.session_id@),
        reads(w.remote_bundle_path@, m.remote_bundle_path@),
        all_read(w.warnings@, m.warnings@),
        reads(w.message@, m.message@),
{
    lemma_reads(m.session_id@);
    lemma_reads(m.remote_bundle_path@);
    lemma_all_read(w.warnings@, m.warnings@);
    lemma_reads(m.message@);
}

/// What a caller reads of a thread.
pub proof fn law_thread_is_handed_over(m: ThreadSnapshot, w: ProfilerThreadSnapshot)
    requires
        m.handed(&w),
    ensures
        w.tid == m.tid,
        w.tgid == m.tgid,
        w.name is Some && reads(w.name->Some_0@, m.name@),
        w.loading_pct == m.loading_pct,
        w.c0_pct == m.c0_pct,
        w.c1_pct == m.c1_pct,
        w.c2_pct == m.c2_pct,
        w.runnable_pct == m.runnable_pct,
        w.mips == m.mips,
        w.mcps == m.mcps,
        w.cpi == m.cpi,
{
    lemma_reads(m.name@);
}

/// What a caller reads of the summary of a session.
pub proof fn law_summary_is_handed_over(m: RtbSummary, w: ProfilerRtbSummary)
    requires
        m.handed(&w),
    ensures
        w.top_threads@.len() == m.top_threads@.len(),
        forall|i: int|
            0 <= i < m.top_threads@.len() ==> (#[trigger] m.top_threads@[i]).handed(
                &w.top_threads@[i],
            ),
        w.freq_distributions@.len() == m.freq_distributions@.len(),
        forall|i: int|
            0 <= i < m.freq_distributions@.len() ==> (#[trigger] m.freq_distributions@[i]).handed(
                &w.freq_distributions@[i],
            ),
        thread_handed(m.logical_thread, w.logical_thread),
        thread_handed(m.render_thread, w.render_thread),
        thread_handed(m.rhi_thread, w.rhi_thread),
        w.start_temp == m.start_temp,
        w.end_temp == m.end_temp,
        w.frame_times_ms@ == m.frame_times_ms@,
        w.vsync_sf_buckets@.len() == m.vsync_sf_buckets@.len(),
        forall|i: int|
            0 <= i < m.vsync_sf_buckets@.len() ==> (#[trigger] m.vsync_sf_buckets@[i]).handed(
                &w.vsync_sf_buckets@[i],
            ),
        w.vsync_sf_base_interval_ms == m.vsync_sf_base_interval_ms,
{
}

/// A thread that is not known is handed over as one without a name whose
/// numbers are all zero; one that is, as it is. What was not polled is not
/// handed over.
pub proof fn law_missing_thread_is_handed_over_as_zeros(
    t: Option<ThreadSnapshot>,
    w: ProfilerThreadSnapshot,
    polled: Option<ProfilerThreadSnapshot>,
)
    requires
        thread_handed(t, w),
    ensures
        t is Some ==> t->Some_0.handed(&w),
        t is None ==> w.tid == 0,
        t is None ==> w.tgid == 0,
        t is None ==> w.name is None,
        t is None ==> w.loading_pct == Double::nought(),
        t is None ==> w.c0_pct == Double::nought(),
        t is None ==> w.c1_pct == Double::nought(),
        t is None ==> w.c2_pct == Double::nought(),
        t is None ==> w.runnable_pct == Double::nought(),
        t is None ==> w.mips == Double::nought(),
        t is None ==> w.mcps == Double::nought(),
        t is None ==> w.cpi == Double::nought(),
        poll_handed(t, polled) ==> (polled is Some <==> t is Some),
        poll_handed(t, polled) && t is Some ==> t->Some_0.handed(&polled->Some_0),
{
}

} // verus!
