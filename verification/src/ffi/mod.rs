//! The library's interface for callers in other languages.
pub mod calls;
pub mod daq;
pub mod daq_laws;
pub mod device;
pub mod laws;
pub mod options;
pub mod outcome;
pub mod record_laws;
pub mod records;
pub mod streams;
pub mod types;
