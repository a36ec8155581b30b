//! USB interfaces.

pub mod tmc;
pub mod settings;
