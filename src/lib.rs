//! An unattended agent that reports boot, heartbeat, removable-media and
//! idle/active events as webhook notifications.
//!
//! Everything here decides and renders; delivering the rendered requests,
//! reading the clock and the machine, and watching the file system are left
//! to the caller.

pub mod text;
pub mod webhook;
pub mod idle;
pub mod system;
pub mod heartbeat;
pub mod usb;
pub mod service;
