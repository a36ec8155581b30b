//! TCP interface settings.

pub mod tcp_settings;
