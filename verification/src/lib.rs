//! Core of a firmware flasher for ESP32-class devices: firmware package
//! extraction, device connection rules, flash payload construction and the
//! orchestration of one flash attempt. Serial transport, file access and the
//! user interface are left to the caller, which exchanges plain values with
//! this crate.

pub mod archive;
pub mod device;
pub mod image;
pub mod pipeline;
pub mod ports;
pub mod state;
pub mod text;
pub mod tree;
