//! Driving `adb`: the commands and what their output comes to, the devices
//! that it lists, and the daemon on a device.
pub mod commands;
pub mod daemon;
pub mod deploy;
pub mod devices;
pub mod laws;
