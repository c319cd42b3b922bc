//! The numbers that the driver, the daemon and callers know things by.
use vstd::prelude::*;
use crate::connect::DAEMON_PORT;
use crate::daq::constants::{
    DAQmx_Val_Acquired_Into_Buffer, DAQmx_Val_Cfg_Default, DAQmx_Val_ContSamps, DAQmx_Val_Create,
    DAQmx_Val_CreateOrReplace, DAQmx_Val_Diff, DAQmx_Val_Falling, DAQmx_Val_FiniteSamps,
    DAQmx_Val_FromCustomScale, DAQmx_Val_GroupByChannel, DAQmx_Val_GroupByScanNumber,
    DAQmx_Val_HWTimedSinglePoint, DAQmx_Val_Log, DAQmx_Val_LogAndRead, DAQmx_Val_NRSE,
    DAQmx_Val_Off, DAQmx_Val_Open, DAQmx_Val_OpenOrCreate, DAQmx_Val_PseudoDiff, DAQmx_Val_RSE,
    DAQmx_Val_Rising, DAQmx_Val_Volts, DAQmx_Val_VoltsPerVolt,
};
use crate::daq::streaming::{ERROR_QUEUE, POLL_QUEUE};
use crate::ffi::device::WIFI_RESTART_SECS;
use crate::grpc::client::{SOURCE_STATE_DONE, SOURCE_STATE_FAILED};
use crate::grpc::frame::{MAX_ERROR_TEXT, MAX_MESSAGE};
use crate::grpc::sync_control::{COMMAND_TIMEOUT_SECS, FILE_TIMEOUT_SECS, UPLOAD_PART};

verus! {

/// The driver's own numbers for its settings.
pub proof fn law_the_driver_knows_its_settings_by_number()
    ensures
        DAQmx_Val_Cfg_Default == -1,
        DAQmx_Val_RSE == 10083,
        DAQmx_Val_NRSE == 10078,
        DAQmx_Val_Diff == 10106,
        DAQmx_Val_PseudoDiff == 12529,
        DAQmx_Val_FiniteSamps == 10178,
        DAQmx_Val_ContSamps == 10123,
        DAQmx_Val_HWTimedSinglePoint == 12522,
        DAQmx_Val_Volts == 10348,
        DAQmx_Val_FromCustomScale == 10065,
        DAQmx_Val_VoltsPerVolt == 15896,
        DAQmx_Val_Log == 15844,
        DAQmx_Val_LogAndRead == 15842,
        DAQmx_Val_Off == 10231,
        DAQmx_Val_Open == 10437,
        DAQmx_Val_OpenOrCreate == 15846,
        DAQmx_Val_CreateOrReplace == 15847,
        DAQmx_Val_Create == 15848,
        DAQmx_Val_Rising == 10280,
        DAQmx_Val_Falling == 10171,
        DAQmx_Val_GroupByChannel == 0,
        DAQmx_Val_GroupByScanNumber == 1,
        DAQmx_Val_Acquired_Into_Buffer == 1,
{
}

/// The daemon listens on port 50051, takes messages of up to a mebibyte and
/// reasons of up to 64 kibibytes, and files in parts of 64 kibibytes. It
/// answers a command within five seconds and one about a file within thirty.
/// A profile by source that is done is in its third state, one that failed in
/// its fourth.
pub proof fn law_the_daemon_works_within_these_bounds()
    ensures
        DAEMON_PORT == 50051,
        MAX_MESSAGE == 1024 * 1024,
        MAX_ERROR_TEXT == 64 * 1024,
        UPLOAD_PART == 64 * 1024,
        COMMAND_TIMEOUT_SECS == 5,
        FILE_TIMEOUT_SECS == 30,
        SOURCE_STATE_DONE == 3,
        SOURCE_STATE_FAILED == 4,
{
}

/// A measurement keeps the latest 256 moments and 64 errors for its caller. A
/// device that was told to listen for `adb` is given two seconds to restart.
pub proof fn law_what_is_kept_for_callers()
    ensures
        POLL_QUEUE == 256,
        ERROR_QUEUE == 64,
        WIFI_RESTART_SECS == 2,
{
}

} // verus!
