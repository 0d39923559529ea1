//! Device attachment for a Cloud Hypervisor virtual machine.
//!
//! Requests to attach a device are queued while the machine is not running and
//! turned into calls to the machine monitor once it is. The crate decides; the
//! caller talks to the monitor.

pub mod attach;
pub mod boot;
pub mod config;
pub mod device;
pub mod error;
pub mod hypervisor;
pub mod laws;
pub mod path;
pub mod replay;
pub mod settings;
pub mod views;
