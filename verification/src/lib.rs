//! Verified core of a USB device-flashing tool: device discovery and
//! classification, the session open/retry policy, the cancellable
//! progress-reporting push transfer, and the polling change-watcher.
//!
//! All device, file and process I/O lives outside this crate; the library
//! receives plain values (serial numbers, port names, read outcomes, flag
//! snapshots) and returns decisions and events whose behaviour is stated in
//! contracts and proved.
pub mod device;
pub mod device_watch;
pub mod error;
pub mod file;
pub mod hex;
pub mod lpk;
pub mod port_watch;
pub mod serialport_watcher;
pub mod session;
pub mod text;
pub mod transfer;
