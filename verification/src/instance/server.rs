//! Attribute servers: the registry of command callbacks and the checks made
//! on values.

pub mod callbacks;
pub mod choices;
