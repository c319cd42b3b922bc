//! Profiling Android devices and Linux hosts from a desktop: finding devices
//! with `adb`, deploying and talking to the profiling daemon, recording and
//! reporting, and measuring power with data acquisition hardware.
//!
//! The library decides, parses and renders; it opens no socket and no file.
//! What has to be sent, run or written is handed out as plain data, and what
//! came of it is handed back in.
pub mod adb;
pub mod bounded_queue;
pub mod connect;
pub mod connect_laws;
pub mod constant_laws;
pub mod core_api;
pub mod core_laws;
pub mod crash;
pub mod csv;
pub mod daq;
pub mod double;
pub mod ffi;
pub mod gar;
pub mod gar_laws;
pub mod grpc;
pub mod local_linux_record;
pub mod message_laws;
pub mod number;
pub mod proto;
pub mod record_laws;
pub mod record_row_laws;
pub mod runtime;
pub mod text;
pub mod text_laws;
pub mod view_laws;
pub mod wide;

pub use crate::runtime::{
    ConnectionEntry, init_runtime, next_cml_handle_id, next_cr_handle_id, next_gc_handle_id,
    next_rtb_handle_id, next_tc_handle_id, set_last_error, shutdown_runtime, take_last_error,
};
