//! What the daemon's service is asked and answers, and how a file comes over
//! it.
use vstd::prelude::*;
use crate::double::Double;
use crate::grpc::streaming::{stream_kind, stream_started};
use crate::proto::{
    Call, CallModel, Request, SourceSpeCaptureScope, SourceSpeOperationFilterMode,
};
use crate::text::{blank, concat2, is_blank};

verus! {

/// How far a trace has come.
#[derive(Debug, Clone)]
pub struct PerfettoStatusInfo {
    pub state: i32,
    pub progress_pct: Double,
    pub output_path: String,
}

/// The app in the foreground.
#[derive(Debug, Clone)]
pub struct TopAppInfo {
    pub package_name: String,
    pub activity: String,
    pub pid: i32,
}

// ---------------------------------------------------------------------------
// Procedures
// ---------------------------------------------------------------------------

/// The remote procedure that answers a request.
pub open spec fn procedure_of(request: CallModel) -> Seq<char> {
    match request {
        Request::Health => "Health"@,
        Request::GetPid { .. } => "GetPid"@,
        Request::StopRecording { .. } => "StopRecording"@,
        Request::GetRtbSummary => "GetRtbSummary"@,
        Request::GetSurfaceNames { .. } => "GetSurfaceNames"@,
        Request::Shell { .. } => "Shell"@,
        Request::PathExists { .. } => "PathExists"@,
        Request::GetTopApp => "GetTopApp"@,
        Request::GetScreenSize => "GetScreenSize"@,
        Request::InputTap { .. } => "InputTap"@,
        Request::InputSwipe { .. } => "InputSwipe"@,
        Request::InputText { .. } => "InputText"@,
        Request::InputKeyEvent { .. } => "InputKeyEvent"@,
        Request::ListPackages { .. } => "ListPackages"@,
        Request::GetPackageInfo { .. } => "GetPackageInfo"@,
        Request::LaunchApp { .. } => "LaunchApp"@,
        Request::StopApp { .. } => "StopApp"@,
        Request::InstallApk { .. } => "InstallApk"@,
        Request::GetDeviceProp { .. } => "GetDeviceProp"@,
        Request::GetTemperature => "GetTemperature"@,
        Request::SetCharging { .. } => "SetCharging"@,
        Request::SetDeviceId { .. } => "SetDeviceId"@,
        Request::RemoveFile { .. } => "RemoveFile"@,
        Request::CreateArchive { .. } => "CreateArchive"@,
        Request::ExtractArchive { .. } => "ExtractArchive"@,
        Request::Chmod { .. } => "Chmod"@,
        Request::Chown { .. } => "Chown"@,
        Request::GetFileOwner { .. } => "GetFileOwner"@,
        Request::DiscoverFtraceEvents => "DiscoverFtraceEvents"@,
        Request::DiscoverPmuEvents => "DiscoverPmuEvents"@,
        Request::GetPmuHwCounters => "GetPmuHwCounters"@,
        Request::DiscoverGpuCounters => "DiscoverGpuCounters"@,
        Request::Screenshot { .. } => "Screenshot"@,
        Request::PullFile { .. } => "PullFile"@,
        Request::PushFile { .. } => "PushFile"@,
        Request::StartPerfetto { .. } => "StartPerfetto"@,
        Request::GetPerfettoStatus => "GetPerfettoStatus"@,
        Request::StartRtbStream { .. } => "StartRtbStream"@,
        Request::StartCrStream { .. } => "StartCrStream"@,
        Request::StartTcStream { .. } => "StartTcStream"@,
        Request::StartCmlStream { .. } => "StartCmlStream"@,
        Request::StartGcStream { .. } => "StartGcStream"@,
    }
}

/// The remote procedure that answers a request.
pub fn procedure(request: &Call) -> (name: &'static str)
    ensures
        name@ == procedure_of(request@),
{
    match request {
        Request::Health => "Health",
        Request::GetPid { .. } => "GetPid",
        Request::StopRecording { .. } => "StopRecording",
        Request::GetRtbSummary => "GetRtbSummary",
        Request::GetSurfaceNames { .. } => "GetSurfaceNames",
        Request::Shell { .. } => "Shell",
        Request::PathExists { .. } => "PathExists",
        Request::GetTopApp => "GetTopApp",
        Request::GetScreenSize => "GetScreenSize",
        Request::InputTap { .. } => "InputTap",
        Request::InputSwipe { .. } => "InputSwipe",
        Request::InputText { .. } => "InputText",
        Request::InputKeyEvent { .. } => "InputKeyEvent",
        Request::ListPackages { .. } => "ListPackages",
        Request::GetPackageInfo { .. } => "GetPackageInfo",
        Request::LaunchApp { .. } => "LaunchApp",
        Request::StopApp { .. } => "StopApp",
        Request::InstallApk { .. } => "InstallApk",
        Request::GetDeviceProp { .. } => "GetDeviceProp",
        Request::GetTemperature => "GetTemperature",
        Request::SetCharging { .. } => "SetCharging",
        Request::SetDeviceId { .. } => "SetDeviceId",
        Request::RemoveFile { .. } => "RemoveFile",
        Request::CreateArchive { .. } => "CreateArchive",
        Request::ExtractArchive { .. } => "ExtractArchive",
        Request::Chmod { .. } => "Chmod",
        Request::Chown { .. } => "Chown",
        Request::GetFileOwner { .. } => "GetFileOwner",
        Request::DiscoverFtraceEvents => "DiscoverFtraceEvents",
        Request::DiscoverPmuEvents => "DiscoverPmuEvents",
        Request::GetPmuHwCounters => "GetPmuHwCounters",
        Request::DiscoverGpuCounters => "DiscoverGpuCounters",
        Request::Screenshot { .. } => "Screenshot",
        Request::PullFile { .. } => "PullFile",
        Request::PushFile { .. } => "PushFile",
        Request::StartPerfetto { .. } => "StartPerfetto",
        Request::GetPerfettoStatus => "GetPerfettoStatus",
        Request::StartRtbStream { .. } => "StartRtbStream",
        Request::StartCrStream { .. } => "StartCrStream",
        Request::StartTcStream { .. } => "StartTcStream",
        Request::StartCmlStream { .. } => "StartCmlStream",
        Request::StartGcStream { .. } => "StartGcStream",
    }
}

/// Where the service answers a procedure.
pub fn procedure_path(name: &str) -> (path: String)
    ensures
        path@ == "/mprofiler.ProfilerService/"@ + name@,
{
    concat2("/mprofiler.ProfilerService/", name)
}

/// What is said of a procedure that gave no answer.
pub fn procedure_failed(name: &str) -> (s: String)
    ensures
        s@ == name@ + " RPC failed"@,
{
    concat2(name, " RPC failed")
}

/// What goes between the two sides for a request.
#[derive(Debug, Clone, Copy, PartialEq, Eq, Structural)]
pub enum Carriage {
    /// One message each way.
    Message,
    /// A file that the daemon sends in parts.
    FileFromDevice,
    /// A file that the daemon is sent in parts.
    FileToDevice,
    /// Samples, until the stream is stopped.
    Samples,
}

/// What goes between the two sides for a request.
pub fn carriage(request: &Call) -> (c: Carriage)
    ensures
        c == Carriage::FileFromDevice <==> request@ is Screenshot || request@ is PullFile,
        c == Carriage::FileToDevice <==> request@ is PushFile,
        c == Carriage::Samples <==> stream_started(request@) is Some,
{
    match request {
        Request::Screenshot { .. } => Carriage::FileFromDevice,
        Request::PullFile { .. } => Carriage::FileFromDevice,
        Request::PushFile { .. } => Carriage::FileToDevice,
        _ => if stream_kind(request).is_some() {
            Carriage::Samples
        } else {
            Carriage::Message
        },
    }
}

// ---------------------------------------------------------------------------
// Files
// ---------------------------------------------------------------------------

/// How much of a file has come over the service.
#[derive(Debug)]
pub struct PullProgress {
    pub bytes_received: u64,
}

/// What to do after a part of a file: what to report, and whether it was the
/// last.
#[derive(Debug, Clone, Copy, PartialEq, Eq, Structural)]
pub struct PullStep {
    pub done: u64,
    pub total: u64,
    pub stop: bool,
}

impl PullProgress {
    /// Nothing has come yet.
    pub fn new() -> (p: PullProgress)
        ensures
            p.bytes_received == 0,
    {
        PullProgress { bytes_received: 0 }
    }

    /// What to do after a part of `len` bytes, which is written whatever it
    /// holds. The whole size is not known, and reported as zero.
    pub fn take(&mut self, len: u64, is_last: bool) -> (step: PullStep)
        requires
            old(self).bytes_received + len <= u64::MAX,
        ensures
            final(self).bytes_received == old(self).bytes_received + len,
            step == (PullStep {
                done: final(self).bytes_received,
                total: 0,
                stop: is_last,
            }),
    {
        self.bytes_received = self.bytes_received + len;
        PullStep { done: self.bytes_received, total: 0, stop: is_last }
    }

    /// What to report once the file is whole. The size stays unknown in this
    /// report too.
    pub fn finish(&self) -> (step: PullStep)
        ensures
            step == (PullStep { done: self.bytes_received, total: 0, stop: true }),
    {
        PullStep { done: self.bytes_received, total: 0, stop: true }
    }
}

// ---------------------------------------------------------------------------
// Source profiles
// ---------------------------------------------------------------------------

/// The cores to be sampled.
#[derive(Debug, Clone)]
pub struct SourceCpuSelectionOptions {
    pub all_cpus: bool,
    pub cpus: Vec<i32>,
    pub clusters: Vec<String>,
}

/// What a scan of the device's capabilities is asked for.
#[derive(Debug, Clone)]
pub struct SourceProfileCapabilityOptions {
    pub package_name: String,
    pub pid: u32,
    pub cpu_selection: SourceCpuSelectionOptions,
    pub enable_pmu: bool,
    pub enable_spe: bool,
    pub requested_metric_groups: Vec<String>,
}

/// A path that stands in for another.
#[derive(Debug, Clone)]
pub struct SourcePathRemapOption {
    pub from: String,
    pub to: String,
}

/// What a source profile is asked for.
#[derive(Debug, Clone)]
pub struct SourceProfileStartOptions {
    pub package_name: String,
    pub pid: u32,
    pub cpu_selection: SourceCpuSelectionOptions,
    pub enable_pmu: bool,
    pub enable_spe: bool,
    pub duration_ms: u64,
    pub pmu_buffer_pages: u32,
    pub pmu_max_output_bytes: u64,
    pub spe_aux_buffer_bytes: u64,
    pub spe_max_output_bytes: u64,
    pub spe_ring_buffer_pages: u32,
    pub spe_capture_scope: SourceSpeCaptureScope,
    pub spe_operation_filter: SourceSpeOperationFilterMode,
    pub sample_period: u64,
    pub callchain_depth: u32,
    pub output_remote_root: String,
    pub requested_event_keys: Vec<String>,
    pub debug_elf_hints: Vec<String>,
    pub source_root_hints: Vec<String>,
    pub path_remaps: Vec<SourcePathRemapOption>,
    pub bundle_device_debug_elfs: bool,
}

/// What is wrong with the settings of a source profile.
pub open spec fn source_settings_fault(
    package_name: Seq<char>,
    pid: u32,
    duration_ms: u64,
    sample_period: u64,
    pmu_buffer_pages: u32,
) -> Option<Seq<char>> {
    if blank(package_name) && pid == 0 {
        Some("--package or --pid is required"@)
    } else if duration_ms == 0 {
        Some("--duration-ms must be > 0"@)
    } else if sample_period == 0 {
        Some("--sample-period must be > 0"@)
    } else if pmu_buffer_pages == 0 {
        Some("--pmu-buffer-pages must be > 0"@)
    } else {
        None
    }
}

/// Checks the settings of a source profile.
pub fn check_source_settings(
    package_name: &str,
    pid: u32,
    duration_ms: u64,
    sample_period: u64,
    pmu_buffer_pages: u32,
) -> (r: Result<(), String>)
    ensures
        match source_settings_fault(
            package_name@,
            pid,
            duration_ms,
            sample_period,
            pmu_buffer_pages,
        ) {
            Some(m) => r is Err && r->Err_0@ == m,
            None => r is Ok,
        },
{
    if is_blank(package_name) && pid == 0 {
        Err("--package or --pid is required".to_string())
    } else if duration_ms == 0 {
        Err("--duration-ms must be > 0".to_string())
    } else if sample_period == 0 {
        Err("--sample-period must be > 0".to_string())
    } else if pmu_buffer_pages == 0 {
        Err("--pmu-buffer-pages must be > 0".to_string())
    } else {
        Ok(())
    }
}

/// The state of a source profile that is done.
pub const SOURCE_STATE_DONE: i32 = 3;

/// The state of a source profile that failed.
pub const SOURCE_STATE_FAILED: i32 = 4;

/// Where a source profile stands: where its bundle is, as far as that is
/// known.
#[derive(Debug)]
pub struct SourceSession {
    pub remote_bundle: String,
}

/// What to do after a look at a source profile.
#[derive(Debug)]
pub enum SourceStep {
    /// Look again later.
    Wait,
    /// Fetch the bundle.
    Fetch,
    /// Give up, for the given reason.
    Fail(String),
}

impl SourceSession {
    /// What to do after a look that showed the given state. A bundle's path
    /// is kept once it is known, and replaced by a later one.
    pub fn look(
        &mut self,
        state: i32,
        remote_bundle_path: &str,
        message: &str,
    ) -> (step: SourceStep)
        ensures
            final(self).remote_bundle@ == if remote_bundle_path@.len() == 0 {
                old(self).remote_bundle@
            } else {
                remote_bundle_path@
            },
            step is Fetch <==> state == SOURCE_STATE_DONE,
            step is Fail <==> state == SOURCE_STATE_FAILED,
            step is Fail ==> step->Fail_0@ == "source profile session failed: "@ + message@,
    {
        if remote_bundle_path.unicode_len() > 0 {
            self.remote_bundle = remote_bundle_path.to_string();
        }
        if state == SOURCE_STATE_DONE {
            SourceStep::Fetch
        } else if state == SOURCE_STATE_FAILED {
            SourceStep::Fail(concat2("source profile session failed: ", message))
        } else {
            SourceStep::Wait
        }
    }
}

} // verus!
