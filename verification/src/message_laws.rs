//! What is said of errors, to the letter, and of panics in the crash log.
use vstd::prelude::*;
use crate::adb::commands::AdbError;
use crate::adb::deploy::DeployError;
use crate::crash::{entry, place};
use crate::daq::config::ConfigError;
use crate::daq::streaming::{SessionError, StartStep};
use crate::grpc::frame::SyncError;
use crate::grpc::streaming::StreamKind;
use crate::number::{FloatFault, IntFault, decimal};

verus! {

/// What is said of a number that cannot be read.
pub proof fn law_number_faults_in_words()
    ensures
        IntFault::Empty.words() == "cannot parse integer from empty string"@,
        IntFault::InvalidDigit.words() == "invalid digit found in string"@,
        IntFault::TooLarge.words() == "number too large to fit in target type"@,
        IntFault::TooSmall.words() == "number too small to fit in target type"@,
        FloatFault::Empty.words() == "cannot parse float from empty string"@,
        FloatFault::Invalid.words() == "invalid float literal"@,
{
}

/// What is said of a command of the control protocol that failed.
pub proof fn law_control_errors_in_words(l: Seq<char>, m: Seq<char>, n: usize, count: u64)
    ensures
        SyncError::Rejected(m).words() == "sync command rejected: "@ + m,
        SyncError::<Seq<char>>::ErrorTooLarge(n).words() == "sync error message too large: "@
            + decimal(n as nat),
        SyncError::<Seq<char>>::ResponseTooLarge(n).words() == "sync response too large: "@
            + decimal(n as nat),
        SyncError::<Seq<char>>::PushFailed(count).words() == "sync push failed after "@ + decimal(
            count as nat,
        ) + " bytes"@,
        SyncError::StartRejected(l, m).words() == "sync "@ + l + " start rejected: "@ + m,
        SyncError::<Seq<char>>::StartErrorTooLarge(n).words()
            == "sync RTB error message too large: "@ + decimal(n as nat),
        SyncError::FrameLength(l, n).words() == "invalid sync "@ + l + " frame length: "@ + decimal(
            n as nat,
        ),
{
}

/// The threads that read streams are called after them.
pub proof fn law_readers_are_called_after_their_streams()
    ensures
        StreamKind::Rtb.reader_name() == "rtb-sync-client"@,
        StreamKind::Cr.reader_name() == "cr-sync-client"@,
        StreamKind::Tc.reader_name() == "tc-sync-client"@,
        StreamKind::Cml.reader_name() == "cml-sync-client"@,
        StreamKind::Gc.reader_name() == "gc-sync-client"@,
{
}

/// What is said of a command of `adb` that failed, or that could not be run.
pub proof fn law_command_errors_in_words(what: Seq<char>, why: Seq<char>)
    ensures
        AdbError::NotExecuted(what).words() == "Failed to execute adb "@ + what,
        AdbError::Failed(what, why).words() == "adb "@ + what + " failed: "@ + why,
{
}

/// What is said of a deployment that failed.
pub proof fn law_deployment_errors_in_words()
    ensures
        DeployError::PushBinary.words() == "Failed to push realtime_profile binary"@,
        DeployError::PushLibrary.words() == "Failed to push libc++_shared.so"@,
        DeployError::Chmod.words() == "Failed to chmod realtime_profile"@,
        DeployError::Start.words() == "Failed to start realtime_profile daemon"@,
        DeployError::NotAliveAfterPush.words() == "部署後 daemon 仍無法啟動"@,
        DeployError::NotAliveWithoutBinary.words()
            == "Daemon 啟動失敗且未提供 local binary 路徑"@,
{
}

/// What is said of a configuration that cannot be used.
pub proof fn law_configuration_errors_in_words(text: Seq<char>, row: u32, c: char)
    ensures
        ConfigError::<Seq<char>>::NoChannelSheet.words()
            == "Failed to read channel settings sheet (sheet index 0)"@,
        (ConfigError::PairIndex { text, row }).words() == "Invalid power pair index '"@ + text
            + "' at row "@ + decimal(row as nat),
        (ConfigError::ZeroGain { name: text, row }).words() == "Gain is zero for channel '"@ + text
            + "' at row "@ + decimal(row as nat) + " -- this would cause division by zero"@,
        (ConfigError::Order { text, row }).words() == "Invalid order '"@ + text + "' at row "@
            + decimal(row as nat),
        (ConfigError::IllegalName { name: text, character: c }).words() == "Channel name '"@ + text
            + "' contains illegal character '"@ + seq![c] + "'"@,
{
}

/// A step of the start of a measurement, as contracts speak of it.
pub type Step = StartStep<Seq<char>>;

/// What is said of a measurement that could not be started or stopped names
/// the step that failed.
pub proof fn law_measurement_errors_in_words(n: Seq<char>, m: Seq<char>)
    ensures
        SessionError::<Seq<char>>::NoDevices.words() == "No DAQmx devices found"@,
        SessionError::<Seq<char>>::NoChannels.words() == "No valid channels found for any device"@,
        SessionError::Step(Step::Scale(n), m).words() == "Failed to create scale for "@ + n + ": "@
            + m,
        SessionError::Step(Step::Task(n), m).words() == "Failed to create task for "@ + n + ": "@
            + m,
        SessionError::Step(Step::Channel(n), m).words() == "Failed to add channel "@ + n + ": "@
            + m,
        SessionError::Step(Step::Timing, m).words() == "Failed to configure timing: "@ + m,
        SessionError::Step(Step::InputBuffer, m).words() == "Failed to configure input buffer: "@
            + m,
        SessionError::Step(Step::Callback, m).words() == "Failed to register callback: "@ + m,
        SessionError::Step(Step::Start, m).words() == "Failed to start task: "@ + m,
        SessionError::Panicked(m).words() == "DAQ background thread panicked: "@ + m,
        SessionError::<Seq<char>>::AlreadyStopped.words()
            == "DAQ: No thread handle available (already stopped?)"@,
{
}

/// An entry of the crash log begins with the time between brackets and what
/// kind it is; the details stand on the next line, and an empty line follows.
/// A panic is placed by its file, line and column, where they are known.
pub proof fn law_log_entries_say_when_and_where(
    seconds: u64,
    kind: Seq<char>,
    detail: Seq<char>,
    file: Seq<char>,
    line: u32,
    column: u32,
)
    ensures
        entry(seconds, kind, detail) == "["@ + decimal(seconds as nat) + "] "@ + kind + "\n"@
            + detail + "\n\n"@,
        place(Some((file, line, column))) == file + ":"@ + decimal(line as nat) + ":"@ + decimal(
            column as nat,
        ),
        place(None) == "unknown location"@,
{
}

} // verus!
