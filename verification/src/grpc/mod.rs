//! Talking to the daemon: the plain-socket control protocol, the streams that
//! it sends, and the calls of its service.
pub mod client;
pub mod frame;
pub mod laws;
pub mod streaming;
pub mod sync_control;
