//! Power measurement with data acquisition hardware: the configuration, the
//! devices, the plan of a session, and what is made of its samples.
pub mod avro_writer;
pub mod config;
pub mod constants;
pub mod device;
pub mod error;
pub mod file_laws;
pub mod laws;
pub mod load;
pub mod reader;
pub mod sheet_laws;
pub mod streaming;
pub mod summary;
pub mod voltage_laws;
