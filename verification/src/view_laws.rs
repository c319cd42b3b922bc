//! What contracts speak of: the model of a value holds the value's own fields,
//! each text in it as the characters that it is made of.
use vstd::prelude::*;
use crate::adb::commands::AdbCommand;
use crate::adb::deploy::DeployTarget;
use crate::adb::devices::DeviceInfo;
use crate::connect::{ConnectError, ConnectEvent, ConnectPlan};
use crate::core_api::CoreError;
use crate::daq::config::{ChannelConfig, ConfigError, NumericCell, PowerPair};
use crate::daq::error::DaqmxError;
use crate::daq::streaming::ChannelMeta;
use crate::ffi::outcome::Reply;
use crate::gar::{CellPlan, Value};
use crate::grpc::frame::SyncError;
use crate::local_linux_record::{Column, LinuxHostSample, LinuxThreadSummary};
use crate::proto::{CallModel, Request};

verus! {

/// What contracts speak of for `AdbCommand`.
pub type AdbCommandModel = AdbCommand<Seq<char>>;

/// What contracts speak of for `Column`.
pub type ColumnModel = Column<Seq<char>>;

/// What contracts speak of for `ConfigError`.
pub type ConfigErrorModel = ConfigError<Seq<char>>;

/// What contracts speak of for `ConnectError`.
pub type ConnectErrorModel = ConnectError<Seq<char>>;

/// What contracts speak of for `CoreError`.
pub type CoreErrorModel = CoreError<Seq<char>>;

/// What contracts speak of for `DaqmxError`.
pub type DaqmxErrorModel = DaqmxError<Seq<char>>;

/// What contracts speak of for `NumericCell`.
pub type NumericCellModel = NumericCell<Seq<char>>;

/// What contracts speak of for `Reply`.
pub type ReplyModel = Reply<Seq<char>>;

/// What contracts speak of for `SyncError`.
pub type SyncErrorModel = SyncError<Seq<char>>;

/// What contracts speak of for `Value`.
pub type ValueModel = Value<Seq<char>>;

/// Contracts speak of a command of `adb` by its own fields.
pub proof fn law_command_is_spoken_of_by_its_fields(v: AdbCommand<String>)
    ensures
        match v {
            AdbCommand::Devices => v@ is Devices,
            AdbCommand::Shell { serial, command } => v@ == (AdbCommandModel::Shell {
                serial: serial@,
                command: command@,
            }),
            AdbCommand::Push { serial, local, remote } => v@ == (AdbCommandModel::Push {
                serial: serial@,
                local: local@,
                remote: remote@,
            }),
            AdbCommand::Pull { serial, remote, local } => v@ == (AdbCommandModel::Pull {
                serial: serial@,
                remote: remote@,
                local: local@,
            }),
            AdbCommand::Root { serial } => v@ == (AdbCommandModel::Root { serial: serial@ }),
            AdbCommand::Remount { serial } => v@ == (AdbCommandModel::Remount { serial: serial@ }),
            AdbCommand::Disconnect { serial } => v@ == (AdbCommandModel::Disconnect {
                serial: serial@,
            }),
            AdbCommand::DisconnectAll => v@ is DisconnectAll,
            AdbCommand::Tcpip { serial, port } => v@ == (AdbCommandModel::Tcpip {
                serial: serial@,
                port,
            }),
            AdbCommand::Connect { ip, port } => v@ == (AdbCommandModel::Connect { ip: ip@, port }),
            AdbCommand::Forward {
                serial,
                local_port,
                remote_port,
            } => v@ == (AdbCommandModel::Forward {
                serial: serial@,
                local_port,
                remote_port,
            }),
            AdbCommand::Reverse {
                serial,
                device_port,
                host_port,
            } => v@ == (AdbCommandModel::Reverse {
                serial: serial@,
                device_port,
                host_port,
            }),
            AdbCommand::ReverseRemove {
                serial,
                device_port,
            } => v@ == (AdbCommandModel::ReverseRemove {
                serial: serial@,
                device_port,
            }),
        },
{
}

/// Contracts speak of what is deployed by its own fields.
pub proof fn law_deployment_is_spoken_of_by_its_fields(v: DeployTarget<String>)
    ensures
        v@.serial == v.serial@,
        v@.local_path == v.local_path@,
        v@.remote_path == v.remote_path@,
        v@.port == v.port,
        v@.low_overhead == v.low_overhead,
{
}

/// Contracts speak of a device by its own fields.
pub proof fn law_device_is_spoken_of_by_its_fields(v: DeviceInfo<String>)
    ensures
        v@.serial == v.serial@,
        v@.model == v.model@,
        v@.state == v.state@,
        v@.product == v.product@,
        v@.device_name == v.device_name@,
{
}

/// Contracts speak of a plan by its own fields.
pub proof fn law_plan_is_spoken_of_by_its_fields(v: ConnectPlan<String>)
    ensures
        v@.serial == v.serial@,
        v@.local_path == v.local_path@,
        v@.remote_path == v.remote_path@,
        v@.port == v.port,
        v@.low_overhead == v.low_overhead,
        v@.deploy == v.deploy,
        v@.strict == v.strict,
{
}

/// Contracts speak of what stops a connection by its own fields.
pub proof fn law_connection_error_is_spoken_of_by_its_fields(v: ConnectError<String>)
    ensures
        match v {
            ConnectError::DevicesUnlisted(m) => v@ == ConnectErrorModel::DevicesUnlisted(m@),
            ConnectError::DeviceNotFound => v@ is DeviceNotFound,
            ConnectError::DeployFailed(m) => v@ == ConnectErrorModel::DeployFailed(m@),
            ConnectError::NotAlive => v@ is NotAlive,
            ConnectError::ForwardFailed(m) => v@ == ConnectErrorModel::ForwardFailed(m@),
            ConnectError::SyncForwardFailed(m) => v@ == ConnectErrorModel::SyncForwardFailed(m@),
            ConnectError::PortOverflow => v@ is PortOverflow,
            ConnectError::LazyFailed(m) => v@ == ConnectErrorModel::LazyFailed(m@),
            ConnectError::DaemonUnreachable(m) => v@ == ConnectErrorModel::DaemonUnreachable(m@),
        },
{
}

/// Contracts speak of an event by its own fields.
pub proof fn law_event_is_spoken_of_by_its_fields(v: ConnectEvent<String>)
    ensures
        v@.ok == v.ok,
        v@.text == v.text@,
        v@.present == v.present,
{
}

/// Contracts speak of an error by its own fields.
pub proof fn law_error_is_spoken_of_by_its_fields(v: CoreError<String>)
    ensures
        match v {
            CoreError::InvalidInput(m) => v@ == CoreErrorModel::InvalidInput(m@),
            CoreError::DeviceNotFound(m) => v@ == CoreErrorModel::DeviceNotFound(m@),
            CoreError::DaemonNotRunning(m) => v@ == CoreErrorModel::DaemonNotRunning(m@),
            CoreError::Operation(m) => v@ == CoreErrorModel::Operation(m@),
            CoreError::Runtime(m) => v@ == CoreErrorModel::Runtime(m@),
        },
{
}

/// Contracts speak of a channel by its own fields.
pub proof fn law_channel_is_spoken_of_by_its_fields(v: ChannelConfig<String>)
    ensures
        v@.physical_channel == v.physical_channel@,
        v@.name == v.name@,
        v@.gain == v.gain,
        v@.offset == v.offset,
        v@.order == v.order,
        v@.range_max == v.range_max,
        v@.range_min == v.range_min,
        v@.color == v.color,
{
}

/// Contracts speak of a pair by its own fields.
pub proof fn law_pair_is_spoken_of_by_its_fields(v: PowerPair<String>)
    ensures
        v@.index == v.index,
        v@.current_channel == v.current_channel@,
        v@.voltage_channel == v.voltage_channel@,
{
}

/// Contracts speak of a cell that says a number by its own fields.
pub proof fn law_numeric_cell_is_spoken_of_by_its_fields(v: NumericCell<String>)
    ensures
        match v {
            NumericCell::Nothing => v@ is Nothing,
            NumericCell::Value(a) => v@ == NumericCellModel::Value(a@),
            NumericCell::Quotient(a, b) => v@ == NumericCellModel::Quotient(a@, b@),
            NumericCell::Product(a, b) => v@ == NumericCellModel::Product(a@, b@),
        },
{
}

/// Contracts speak of an error of a configuration by its own fields.
pub proof fn law_configuration_error_is_spoken_of_by_its_fields(v: ConfigError<String>)
    ensures
        match v {
            ConfigError::NoChannelSheet => v@ is NoChannelSheet,
            ConfigError::PairIndex { text, row } => v@ == (ConfigErrorModel::PairIndex {
                text: text@,
                row,
            }),
            ConfigError::ZeroGain { name, row } => v@ == (ConfigErrorModel::ZeroGain {
                name: name@,
                row,
            }),
            ConfigError::Order { text, row } => v@ == (ConfigErrorModel::Order {
                text: text@,
                row,
            }),
            ConfigError::IllegalName { name, character } => v@ == (ConfigErrorModel::IllegalName {
                name: name@,
                character,
            }),
        },
{
}

/// Contracts speak of an error of the driver by its own fields.
pub proof fn law_driver_error_is_spoken_of_by_its_fields(v: DaqmxError<String>)
    ensures
        match v {
            DaqmxError::LibraryNotFound(m) => v@ == DaqmxErrorModel::LibraryNotFound(m@),
            DaqmxError::DaqmxCall { code, message } => v@ == (DaqmxErrorModel::DaqmxCall {
                code,
                message: message@,
            }),
            DaqmxError::NoDevices => v@ is NoDevices,
        },
{
}

/// Contracts speak of what is remembered of a channel by its own fields.
pub proof fn law_channel_memory_is_spoken_of_by_its_fields(v: ChannelMeta<String>)
    ensures
        v@.name == v.name@,
        v@.color == v.color,
        v@.power_pair == v.power_pair,
{
}

/// Contracts speak of a reply by its own fields.
pub proof fn law_reply_is_spoken_of_by_its_fields(v: Reply<String>)
    ensures
        match v {
            Reply::Answered => v@ is Answered,
            Reply::Status { success, message } => v@ == (ReplyModel::Status {
                success,
                message: message@,
            }),
            Reply::Failed(e) => v@ == ReplyModel::Failed(e@),
        },
{
}

/// Contracts speak of a cell's value by its own fields.
pub proof fn law_value_is_spoken_of_by_its_fields(v: Value<String>)
    ensures
        match v {
            Value::Text(s) => v@ == ValueModel::Text(s@),
            Value::Whole(n) => v@ == ValueModel::Whole(n),
            Value::Signed(n) => v@ == ValueModel::Signed(n),
            Value::Literal(s) => v@ == ValueModel::Literal(s@),
            Value::Rounded(s) => v@ == ValueModel::Rounded(s@),
            Value::Seconds(n) => v@ == ValueModel::Seconds(n),
            Value::Metric(m) => v@ == ValueModel::Metric(m),
            Value::MetricText { metric, decimals, percent } => v@ == (ValueModel::MetricText {
                metric,
                decimals,
                percent,
            }),
        },
{
}

/// Contracts speak of a cell by its own fields.
pub proof fn law_cell_is_spoken_of_by_its_fields(v: CellPlan<String>)
    ensures
        v@.row == v.row,
        v@.col == v.col,
        v@.value == v.value@,
{
}

/// Contracts speak of an error of the control protocol by its own fields.
pub proof fn law_control_error_is_spoken_of_by_its_fields(v: SyncError<String>)
    ensures
        match v {
            SyncError::Rejected(m) => v@ == SyncErrorModel::Rejected(m@),
            SyncError::ErrorTooLarge(n) => v@ == SyncErrorModel::ErrorTooLarge(n),
            SyncError::ResponseTooLarge(n) => v@ == SyncErrorModel::ResponseTooLarge(n),
            SyncError::PushFailed(n) => v@ == SyncErrorModel::PushFailed(n),
            SyncError::StartRejected(l, m) => v@ == SyncErrorModel::StartRejected(l@, m@),
            SyncError::StartErrorTooLarge(n) => v@ == SyncErrorModel::StartErrorTooLarge(n),
            SyncError::FrameLength(l, n) => v@ == SyncErrorModel::FrameLength(l@, n),
        },
{
}

/// Contracts speak of a sample by its own fields.
pub proof fn law_sample_is_spoken_of_by_its_fields(v: LinuxHostSample<String>)
    ensures
        v@.timestamp_ms == v.timestamp_ms,
        v@.process_name == v.process_name@,
        v@.cpu_usage_pct == v.cpu_usage_pct@,
        v@.bcpu_usage_pct == v.bcpu_usage_pct@,
        v@.mem_total_kb == v.mem_total_kb,
        v@.mem_available_kb == v.mem_available_kb,
        v@.top_app_rss_kb == v.top_app_rss_kb,
        v@.total_mips == v.total_mips@,
        v@.total_mcps == v.total_mcps@,
        v@.cpi == v.cpi@,
        v@.cache_references_per_sec == v.cache_references_per_sec@,
        v@.cache_misses_per_sec == v.cache_misses_per_sec@,
        v@.cache_miss_rate_pct == v.cache_miss_rate_pct@,
        v@.branch_instructions_per_sec == v.branch_instructions_per_sec@,
        v@.branch_misses_per_sec == v.branch_misses_per_sec@,
        v@.branch_miss_rate_pct == v.branch_miss_rate_pct@,
{
}

/// Contracts speak of a thread's summary by its own fields.
pub proof fn law_thread_is_spoken_of_by_its_fields(v: LinuxThreadSummary<String, String>)
    ensures
        v@.pid == v.pid,
        v@.tgid == v.tgid,
        v@.name == v.name@,
        v@.loading_pct == v.loading_pct@,
        v@.c0_pct == v.c0_pct@,
        v@.c1_pct == v.c1_pct@,
        v@.c2_pct == v.c2_pct@,
        v@.runnable_pct == v.runnable_pct@,
        v@.mips == v.mips@,
        v@.mcps == v.mcps@,
        v@.cpi == v.cpi@,
{
}

/// Contracts speak of a column by its own fields.
pub proof fn law_column_is_spoken_of_by_its_fields(v: Column<String>)
    ensures
        match v {
            Column::Text(t) => v@ == ColumnModel::Text(t@),
            Column::Fixed { value, decimals } => v@ == (ColumnModel::Fixed { value, decimals }),
        },
{
}

/// Contracts speak of a request by its own fields.
pub proof fn law_request_is_spoken_of_by_its_fields(v: Request<String, Vec<i32>, Vec<u32>>)
    ensures
        match v {
            Request::Health => v@ is Health,
            Request::GetPid { package_name } => v@ == (CallModel::GetPid {
                package_name: package_name@,
            }),
            Request::StopRecording { session_type } => v@ == (CallModel::StopRecording {
                session_type: session_type@,
            }),
            Request::GetRtbSummary => v@ is GetRtbSummary,
            Request::GetSurfaceNames { package_name } => v@ == (CallModel::GetSurfaceNames {
                package_name: package_name@,
            }),
            Request::Shell { command } => v@ == (CallModel::Shell { command: command@ }),
            Request::PathExists { path } => v@ == (CallModel::PathExists { path: path@ }),
            Request::GetTopApp => v@ is GetTopApp,
            Request::GetScreenSize => v@ is GetScreenSize,
            Request::InputTap { x, y } => v@ == (CallModel::InputTap { x, y }),
            Request::InputSwipe { x1, y1, x2, y2, duration_ms } => v@ == (CallModel::InputSwipe {
                x1,
                y1,
                x2,
                y2,
                duration_ms,
            }),
            Request::InputText { text } => v@ == (CallModel::InputText { text: text@ }),
            Request::InputKeyEvent { key_code } => v@ == (CallModel::InputKeyEvent { key_code }),
            Request::ListPackages { third_party_only } => v@ == (CallModel::ListPackages {
                third_party_only,
            }),
            Request::GetPackageInfo { package_name } => v@ == (CallModel::GetPackageInfo {
                package_name: package_name@,
            }),
            Request::LaunchApp { package_name } => v@ == (CallModel::LaunchApp {
                package_name: package_name@,
            }),
            Request::StopApp { package_name } => v@ == (CallModel::StopApp {
                package_name: package_name@,
            }),
            Request::InstallApk { remote_apk_path } => v@ == (CallModel::InstallApk {
                remote_apk_path: remote_apk_path@,
            }),
            Request::GetDeviceProp { prop_name } => v@ == (CallModel::GetDeviceProp {
                prop_name: prop_name@,
            }),
            Request::GetTemperature => v@ is GetTemperature,
            Request::SetCharging { enable } => v@ == (CallModel::SetCharging { enable }),
            Request::SetDeviceId { device_id } => v@ == (CallModel::SetDeviceId {
                device_id: device_id@,
            }),
            Request::RemoveFile { path } => v@ == (CallModel::RemoveFile { path: path@ }),
            Request::CreateArchive {
                working_directory,
                target,
                output_path,
            } => v@ == (CallModel::CreateArchive {
                working_directory: working_directory@,
                target: target@,
                output_path: output_path@,
            }),
            Request::ExtractArchive {
                working_directory,
                archive_path,
            } => v@ == (CallModel::ExtractArchive {
                working_directory: working_directory@,
                archive_path: archive_path@,
            }),
            Request::Chmod { path, mode, recursive } => v@ == (CallModel::Chmod {
                path: path@,
                mode: mode@,
                recursive,
            }),
            Request::Chown { path, uid, gid, recursive } => v@ == (CallModel::Chown {
                path: path@,
                uid,
                gid,
                recursive,
            }),
            Request::GetFileOwner { path } => v@ == (CallModel::GetFileOwner { path: path@ }),
            Request::DiscoverFtraceEvents => v@ is DiscoverFtraceEvents,
            Request::DiscoverPmuEvents => v@ is DiscoverPmuEvents,
            Request::GetPmuHwCounters => v@ is GetPmuHwCounters,
            Request::DiscoverGpuCounters => v@ is DiscoverGpuCounters,
            Request::Screenshot { quality } => v@ == (CallModel::Screenshot { quality }),
            Request::PullFile { remote_path } => v@ == (CallModel::PullFile {
                remote_path: remote_path@,
            }),
            Request::PushFile { remote_path } => v@ == (CallModel::PushFile {
                remote_path: remote_path@,
            }),
            Request::StartPerfetto {
                pid,
                mode,
                duration_secs,
                config_pbtxt,
            } => v@ == (CallModel::StartPerfetto {
                pid,
                mode: mode@,
                duration_secs,
                config_pbtxt: config_pbtxt@,
            }),
            Request::GetPerfettoStatus => v@ is GetPerfettoStatus,
            Request::StartRtbStream {
                pid,
                interval_secs,
                mode,
                options,
            } => v@ == (CallModel::StartRtbStream {
                pid,
                interval_secs,
                mode: mode@,
                options,
            }),
            Request::StartCrStream {
                interval_secs,
                cpus,
                exclude_kernel,
                diff_kernel,
                full_mode,
                custom_events,
            } => v@ == (CallModel::StartCrStream {
                interval_secs,
                cpus: cpus@,
                exclude_kernel,
                diff_kernel,
                full_mode,
                custom_events: custom_events@,
            }),
            Request::StartTcStream {
                pid,
                interval_secs,
                exclude_kernel,
                diff_kernel,
                top_threads_count,
                full_mode,
                custom_events,
            } => v@ == (CallModel::StartTcStream {
                pid,
                interval_secs,
                exclude_kernel,
                diff_kernel,
                top_threads_count,
                full_mode,
                custom_events: custom_events@,
            }),
            Request::StartCmlStream {
                cpus,
                max_footprint_kb,
                min_footprint_kb,
            } => v@ == (CallModel::StartCmlStream {
                cpus: cpus@,
                max_footprint_kb,
                min_footprint_kb,
            }),
            Request::StartGcStream {
                gpu_device_number,
                interval_secs,
                counter_ids,
            } => v@ == (CallModel::StartGcStream {
                gpu_device_number,
                interval_secs,
                counter_ids: counter_ids@,
            }),
        },
{
}

} // verus!
