//! Verified core of a USB-key based PAM authentication scheme.
//!
//! A user authenticates by plugging in a USB partition that carries a key
//! file equal to the key file stored on the system for that user; after a
//! successful comparison both keys are replaced by fresh random bytes.
//!
//! Everything that touches the operating system (files, udev, mounting,
//! system calls, process spawning, PAM) is done by the caller; this crate
//! holds the decisions between those steps, with their contracts.

pub mod io_error;
pub mod key;
pub mod config;
pub mod partition;
pub mod text;
pub mod usb_check;
pub mod sys;
pub mod logging;
pub mod cli;
pub mod pam_errors;
pub mod pam;
