//! Helpers for drivers.

pub mod scpi;
