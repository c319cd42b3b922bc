//! The numbers that the NI-DAQmx driver takes.
#![allow(non_upper_case_globals)]
use vstd::prelude::*;

verus! {

// Terminal configurations

pub const DAQmx_Val_Cfg_Default: i32 = -1;

pub const DAQmx_Val_RSE: i32 = 10083;

pub const DAQmx_Val_NRSE: i32 = 10078;

pub const DAQmx_Val_Diff: i32 = 10106;

pub const DAQmx_Val_PseudoDiff: i32 = 12529;

// Acquisition types

pub const DAQmx_Val_FiniteSamps: i32 = 10178;

pub const DAQmx_Val_ContSamps: i32 = 10123;

pub const DAQmx_Val_HWTimedSinglePoint: i32 = 12522;

// Voltage units

pub const DAQmx_Val_Volts: i32 = 10348;

pub const DAQmx_Val_FromCustomScale: i32 = 10065;

// Units before scaling

pub const DAQmx_Val_VoltsPerVolt: i32 = 15896;

// Logging modes

pub const DAQmx_Val_Log: i32 = 15844;

pub const DAQmx_Val_LogAndRead: i32 = 15842;

pub const DAQmx_Val_Off: i32 = 10231;

// Logging operations

pub const DAQmx_Val_Open: i32 = 10437;

pub const DAQmx_Val_OpenOrCreate: i32 = 15846;

pub const DAQmx_Val_CreateOrReplace: i32 = 15847;

pub const DAQmx_Val_Create: i32 = 15848;

// Edges

pub const DAQmx_Val_Rising: i32 = 10280;

pub const DAQmx_Val_Falling: i32 = 10171;

// Fill modes

pub const DAQmx_Val_GroupByChannel: i32 = 0;

pub const DAQmx_Val_GroupByScanNumber: i32 = 1;

// Events

pub const DAQmx_Val_Acquired_Into_Buffer: i32 = 1;

} // verus!
