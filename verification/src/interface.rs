//! Built-in protocols and interfaces that help coding drivers.

pub mod serial;
pub mod tcp;
pub mod usb;
