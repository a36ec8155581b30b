//! Helpers for SCPI instruments.

pub mod boolean;
