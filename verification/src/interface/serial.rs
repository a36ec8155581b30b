//! Serial interfaces.

pub mod eol;
pub mod slip;
pub mod time_lock;
