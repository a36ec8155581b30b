//! Settings of an ethernet interface: IP address and port.
#![allow(non_snake_case)]
use crate::json::{json_field, json_object_fields, FieldValue, JsonField};
use crate::text::opt_text;
use crate::Error;
use serde_json::Value;
use vstd::prelude::*;

verus! {

/// Key for the IP of the device inside json settings.
pub const SETTINGS_ETHERNET_IP_KEY: &'static str = "IP";

/// Key for the port of the device inside json settings.
pub const SETTINGS_ETHERNET_PORT_KEY: &'static str = "Port";

/// Ethernet settings for devices.
pub struct Settings {
    /// IP address of the ethernet interface
    pub ip: Option<String>,
    /// Port of the ethernet interface
    pub port: Option<u16>,
}

impl Settings {
    /// Creates a new Settings instance.
    pub fn new() -> (r: Settings)
        ensures
            r.ip is None,
            r.port is None,
    {
        Settings { ip: None, port: None }
    }

    /// Set the IP address.
    pub fn set_IP(self, ip: String) -> (r: Self)
        ensures
            opt_text(r.ip) == Some(ip@),
            r.port == self.port,
    {
        let mut s = self;
        s.ip = Some(ip);
        s
    }

    /// Set the Port.
    pub fn set_Port(self, port: u16) -> (r: Self)
        ensures
            r.ip == self.ip,
            r.port == Some(port),
    {
        let mut s = self;
        s.port = Some(port);
        s
    }

    /// Look into a json settings object and extract the ethernet
    /// configuration: the IP address is a string, the port a number that
    /// fits in 16 bits.
    pub fn set_ethernet_settings_from_json_settings(self, settings: &Value) -> (r: Result<Self, Error>)
        ensures
            ({
                let fields = json_object_fields(*settings);
                let ip_key = SETTINGS_ETHERNET_IP_KEY@;
                let port_key = SETTINGS_ETHERNET_PORT_KEY@;
                if !fields.contains_key(ip_key) {
                    r matches Err(Error::BadSettings(m)) && m@ == "Missing field 'ip'"@
                } else if !(fields[ip_key] is Text) {
                    r matches Err(Error::BadSettings(m)) && m@ == "'ip' must be a string"@
                } else if !fields.contains_key(port_key) {
                    r matches Err(Error::BadSettings(m)) && m@ == "Missing field 'port'"@
                } else {
                    match (fields[ip_key], fields[port_key]) {
                        (JsonField::Text(ip), JsonField::Unsigned(n)) => if n <= u16::MAX {
                            r matches Ok(s) && opt_text(s.ip) == Some(ip) && s.port == Some(
                                n as u16,
                            )
                        } else {
                            r matches Err(Error::BadSettings(m)) && m@ == "'port' must be a number"@
                        },
                        _ => r matches Err(Error::BadSettings(m)) && m@
                            == "'port' must be a number"@,
                    }
                }
            }),
    {
        let ip = match json_field(settings, SETTINGS_ETHERNET_IP_KEY) {
            None => {
                return Err(Error::BadSettings("Missing field 'ip'".to_owned()));
            },
            Some(FieldValue::Text(t)) => t,
            Some(_) => {
                return Err(Error::BadSettings("'ip' must be a string".to_owned()));
            },
        };
        let port = match json_field(settings, SETTINGS_ETHERNET_PORT_KEY) {
            None => {
                return Err(Error::BadSettings("Missing field 'port'".to_owned()));
            },
            Some(FieldValue::Unsigned(n)) => {
                if n <= u16::MAX as u64 {
                    n as u16
                } else {
                    return Err(Error::BadSettings("'port' must be a number".to_owned()));
                }
            },
            Some(_) => {
                return Err(Error::BadSettings("'port' must be a number".to_owned()));
            },
        };
        let mut s = self;
        s.ip = Some(ip);
        s.port = Some(port);
        Ok(s)
    }
}

} // verus!
