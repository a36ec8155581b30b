//! Core of the Panduza platform: codecs, device settings, protocol framing
//! and the decision logic of instances and attribute servers.

pub mod buffer;
pub mod codec;
pub mod error;
pub mod factory;
pub mod helper;
pub mod json;
pub mod text;
pub mod instance;
pub mod interface;

pub use error::Error;
