//! What callers in other languages ask for.
use vstd::prelude::*;
use crate::ffi::types::{
    ProfilerRtbOptions, ProfilerSourceCapabilityOptions, ProfilerSourceCpuSelection,
    ProfilerSourcePathRemap, ProfilerSourceStartOptions,
};
use crate::grpc::client::{
    SourceCpuSelectionOptions, SourcePathRemapOption, SourceProfileCapabilityOptions,
    SourceProfileStartOptions,
};
use crate::proto::{RtbStreamOptions, SourceSpeCaptureScope, SourceSpeOperationFilterMode};
use crate::text::{same_text, texts};
use crate::wide::{from_wide, from_wide_list, list_units, narrow, narrow_list};

verus! {

// ---------------------------------------------------------------------------
// Real-time benchmark streams
// ---------------------------------------------------------------------------

/// What a stream measures in a mode, unless it is told otherwise.
pub open spec fn options_of_mode(mode: Seq<char>) -> RtbStreamOptions {
    if mode == "mperf"@ {
        RtbStreamOptions {
            enable_fps_present_fence: true,
            enable_power: true,
            ..RtbStreamOptions::off()
        }
    } else {
        RtbStreamOptions::off()
    }
}

/// What a stream measures in a mode, unless it is told otherwise.
pub fn default_rtb_options_for_mode(mode: &str) -> (o: RtbStreamOptions)
    ensures
        o == options_of_mode(mode@),
{
    let mut o = RtbStreamOptions::default();
    if same_text(mode, "mperf") {
        o.enable_fps_present_fence = true;
        o.enable_power = true;
    }
    o
}

/// What a stream measures: what it was told, and else what goes with its mode.
pub open spec fn chosen_options(
    options: Option<ProfilerRtbOptions>,
    mode: Seq<char>,
) -> RtbStreamOptions {
    match options {
        Some(o) => RtbStreamOptions {
            enable_cpu_loading: o.enable_cpu_loading,
            enable_cpu_freq: o.enable_cpu_freq,
            enable_fps_dequeue: o.enable_fps_dequeue,
            enable_fps_queue: o.enable_fps_queue,
            enable_fps_present_fence: o.enable_fps_present_fence,
            enable_gpu: o.enable_gpu,
            use_dumpsys_fps: o.use_dumpsys_fps,
            enable_power: o.enable_power,
            enable_temperature: o.enable_temperature,
            enable_dvfs: o.enable_dvfs,
            enable_memory: o.enable_memory,
            enable_total_mips: o.enable_total_mips,
            enable_thread_mips: o.enable_thread_mips,
            warmup_secs: o.warmup_secs,
        },
        None => options_of_mode(mode),
    }
}

/// What a stream measures.
pub fn rtb_options(options: Option<ProfilerRtbOptions>, mode: &str) -> (r: RtbStreamOptions)
    ensures
        r == chosen_options(options, mode@),
{
    match options {
        Some(o) => RtbStreamOptions {
            enable_cpu_loading: o.enable_cpu_loading,
            enable_cpu_freq: o.enable_cpu_freq,
            enable_fps_dequeue: o.enable_fps_dequeue,
            enable_fps_queue: o.enable_fps_queue,
            enable_fps_present_fence: o.enable_fps_present_fence,
            enable_gpu: o.enable_gpu,
            use_dumpsys_fps: o.use_dumpsys_fps,
            enable_power: o.enable_power,
            enable_temperature: o.enable_temperature,
            enable_dvfs: o.enable_dvfs,
            enable_memory: o.enable_memory,
            enable_total_mips: o.enable_total_mips,
            enable_thread_mips: o.enable_thread_mips,
            warmup_secs: o.warmup_secs,
        },
        None => default_rtb_options_for_mode(mode),
    }
}

// ---------------------------------------------------------------------------
// Source profiles
// ---------------------------------------------------------------------------

/// The numbers of a list that may not be there.
pub open spec fn numbers_of<T>(v: Option<Vec<T>>) -> Seq<T> {
    match v {
        Some(v) => v@,
        None => Seq::empty(),
    }
}

/// The text of a field that may not be there.
pub open spec fn field_text(w: Option<Vec<u16>>) -> Seq<char> {
    narrow(
        match w {
            Some(u) => Some(u@),
            None => None,
        },
    )
}

/// The texts of a list that may not be there.
pub open spec fn field_texts(w: Option<Vec<Option<Vec<u16>>>>) -> Seq<Seq<char>> {
    match w {
        Some(list) => narrow_list(list_units(list@)),
        None => Seq::empty(),
    }
}

/// The numbers of a list that may not be there.
pub fn numbers<T: Copy>(v: &Option<Vec<T>>) -> (r: Vec<T>)
    ensures
        r@ == numbers_of(*v),
{
    let mut r: Vec<T> = Vec::new();
    if let Some(list) = v {
        let mut i: usize = 0;
        while i < list.len()
            invariant
                i <= list@.len(),
                r@ == list@.take(i as int),
            decreases list.len() - i,
        {
            r.push(list[i]);
            assert(list@.take(i as int + 1) =~= list@.take(i as int).push(list@[i as int]));
            i += 1;
        }
        assert(list@.take(list@.len() as int) =~= list@);
    }
    r
}

/// Whether `r` is what the caller asked for of the cores.
pub open spec fn cpus_asked(o: ProfilerSourceCpuSelection, r: SourceCpuSelectionOptions) -> bool {
    &&& r.all_cpus == o.all_cpus
    &&& r.cpus@ == numbers_of(o.cpus)
    &&& texts(r.clusters@) == field_texts(o.clusters)
}

/// The cores that the caller asked for.
pub fn source_cpu_selection_from_ffi(o: &ProfilerSourceCpuSelection) -> (r:
    SourceCpuSelectionOptions)
    ensures
        cpus_asked(*o, r),
{
    SourceCpuSelectionOptions {
        all_cpus: o.all_cpus,
        cpus: numbers(&o.cpus),
        clusters: from_wide_list(o.clusters.as_ref()),
    }
}

/// Whether `r` is the scan that the caller asked for.
pub open spec fn capability_asked(
    o: ProfilerSourceCapabilityOptions,
    r: SourceProfileCapabilityOptions,
) -> bool {
    &&& r.package_name@ == field_text(o.package_name)
    &&& r.pid == o.pid
    &&& cpus_asked(o.cpu_selection, r.cpu_selection)
    &&& r.enable_pmu == o.enable_pmu
    &&& r.enable_spe == o.enable_spe
    &&& texts(r.requested_metric_groups@) == field_texts(o.requested_metric_groups)
}

/// The scan that the caller asked for.
pub fn source_capability_options_from_ffi(o: &ProfilerSourceCapabilityOptions) -> (r:
    SourceProfileCapabilityOptions)
    ensures
        capability_asked(*o, r),
{
    SourceProfileCapabilityOptions {
        package_name: from_wide(o.package_name.as_ref()),
        pid: o.pid,
        cpu_selection: source_cpu_selection_from_ffi(&o.cpu_selection),
        enable_pmu: o.enable_pmu,
        enable_spe: o.enable_spe,
        requested_metric_groups: from_wide_list(o.requested_metric_groups.as_ref()),
    }
}

/// Whether `r` holds the paths that the caller wants to stand in for others.
pub open spec fn remaps_asked(
    o: Seq<ProfilerSourcePathRemap>,
    r: Seq<SourcePathRemapOption>,
) -> bool {
    &&& r.len() == o.len()
    &&& forall|i: int|
        0 <= i < o.len() ==> (#[trigger] r[i]).from@ == field_text(o[i].from) && r[i].to@
            == field_text(o[i].to)
}

fn path_remaps_from_ffi(o: &Option<Vec<ProfilerSourcePathRemap>>) -> (r: Vec<SourcePathRemapOption>)
    ensures
        remaps_asked(numbers_of(*o), r@),
{
    let mut r: Vec<SourcePathRemapOption> = Vec::new();
    if let Some(list) = o {
        let mut i: usize = 0;
        while i < list.len()
            invariant
                i <= list@.len(),
                r@.len() == i,
                forall|j: int|
                    0 <= j < i ==> (#[trigger] r@[j]).from@ == field_text(list@[j].from)
                        && r@[j].to@ == field_text(list@[j].to),
            decreases list.len() - i,
        {
            let from = from_wide(list[i].from.as_ref());
            let to = from_wide(list[i].to.as_ref());
            r.push(SourcePathRemapOption { from, to });
            i += 1;
        }
    }
    r
}

/// What a number says that the statistical profiler samples.
pub open spec fn scope_of(n: i32) -> SourceSpeCaptureScope {
    if n == 1 {
        SourceSpeCaptureScope::CpuOnlySystemWide
    } else {
        SourceSpeCaptureScope::TopHotThreads
    }
}

/// Which operations a number says that the statistical profiler samples.
pub open spec fn filter_of(n: i32) -> SourceSpeOperationFilterMode {
    if n == 1 {
        SourceSpeOperationFilterMode::MemoryBranchOnly
    } else {
        SourceSpeOperationFilterMode::AllOps
    }
}

/// Whether `r` is the source profile that the caller asked for.
pub open spec fn start_asked(
    o: ProfilerSourceStartOptions,
    r: SourceProfileStartOptions,
) -> bool {
    &&& r.package_name@ == field_text(o.package_name)
    &&& r.pid == o.pid
    &&& cpus_asked(o.cpu_selection, r.cpu_selection)
    &&& r.enable_pmu == o.enable_pmu
    &&& r.enable_spe == o.enable_spe
    &&& r.duration_ms == o.duration_ms
    &&& r.pmu_buffer_pages == o.pmu_buffer_pages
    &&& r.pmu_max_output_bytes == o.pmu_max_output_bytes
    &&& r.spe_aux_buffer_bytes == o.spe_aux_buffer_bytes
    &&& r.spe_max_output_bytes == o.spe_max_output_bytes
    &&& r.spe_ring_buffer_pages == o.spe_ring_buffer_pages
    &&& r.spe_capture_scope == scope_of(o.spe_capture_scope)
    &&& r.spe_operation_filter == filter_of(o.spe_operation_filter)
    &&& r.sample_period == o.sample_period
    &&& r.callchain_depth == o.callchain_depth
    &&& r.output_remote_root@ == field_text(o.output_remote_root)
    &&& texts(r.requested_event_keys@) == field_texts(o.requested_event_keys)
    &&& texts(r.debug_elf_hints@) == field_texts(o.debug_elf_hints)
    &&& texts(r.source_root_hints@) == field_texts(o.source_root_hints)
    &&& remaps_asked(numbers_of(o.path_remaps), r.path_remaps@)
    &&& r.bundle_device_debug_elfs == o.bundle_device_debug_elfs
}

/// The source profile that the caller asked for.
pub fn source_start_options_from_ffi(o: &ProfilerSourceStartOptions) -> (r:
    SourceProfileStartOptions)
    ensures
        start_asked(*o, r),
{
    SourceProfileStartOptions {
        package_name: from_wide(o.package_name.as_ref()),
        pid: o.pid,
        cpu_selection: source_cpu_selection_from_ffi(&o.cpu_selection),
        enable_pmu: o.enable_pmu,
        enable_spe: o.enable_spe,
        duration_ms: o.duration_ms,
        pmu_buffer_pages: o.pmu_buffer_pages,
        pmu_max_output_bytes: o.pmu_max_output_bytes,
        spe_aux_buffer_bytes: o.spe_aux_buffer_bytes,
        spe_max_output_bytes: o.spe_max_output_bytes,
        spe_ring_buffer_pages: o.spe_ring_buffer_pages,
        spe_capture_scope: if o.spe_capture_scope == 1 {
            SourceSpeCaptureScope::CpuOnlySystemWide
        } else {
            SourceSpeCaptureScope::TopHotThreads
        },
        spe_operation_filter: if o.spe_operation_filter == 1 {
            SourceSpeOperationFilterMode::MemoryBranchOnly
        } else {
            SourceSpeOperationFilterMode::AllOps
        },
        sample_period: o.sample_period,
        callchain_depth: o.callchain_depth,
        output_remote_root: from_wide(o.output_remote_root.as_ref()),
        requested_event_keys: from_wide_list(o.requested_event_keys.as_ref()),
        debug_elf_hints: from_wide_list(o.debug_elf_hints.as_ref()),
        source_root_hints: from_wide_list(o.source_root_hints.as_ref()),
        path_remaps: path_remaps_from_ffi(&o.path_remaps),
        bundle_device_debug_elfs: o.bundle_device_debug_elfs,
    }
}

} // verus!
