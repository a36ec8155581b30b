//! USB settings of a device: vendor and product ids, serial string.
use crate::json::{json_field, json_object_fields, FieldValue, JsonField};
use crate::text::{debug_str, debug_str_text, hex, hex_string, opt_text};
use crate::Error;
use serde_json::Value;
use vstd::prelude::*;
use vstd::string::*;

verus! {

/// Key for usb vid inside json settings.
pub const SETTINGS_USB_VID_KEY: &'static str = "usb_vid";

/// Key for usb pid inside json settings.
pub const SETTINGS_USB_PID_KEY: &'static str = "usb_pid";

/// Key for usb serial string inside json settings.
pub const SETTINGS_USB_SERIAL_KEY: &'static str = "usb_serial";

/// Usb settings for devices.
#[derive(Debug)]
pub struct Settings {
    /// VID
    pub vid: Option<u16>,
    /// PID
    pub pid: Option<u16>,
    /// Serial String
    pub serial: Option<String>,
}

/// An id read from a settings field: the low 16 bits of a non-negative
/// integer; nothing for a missing field or another kind of value.
pub open spec fn id_field(fields: Map<Seq<char>, JsonField>, key: Seq<char>) -> Option<u16> {
    if fields.contains_key(key) {
        match fields[key] {
            JsonField::Unsigned(n) => Some(n as u16),
            _ => None,
        }
    } else {
        None
    }
}

/// A text read from a settings field; nothing for a missing field or
/// another kind of value.
pub open spec fn text_field(fields: Map<Seq<char>, JsonField>, key: Seq<char>) -> Option<Seq<char>> {
    if fields.contains_key(key) {
        match fields[key] {
            JsonField::Text(s) => Some(s),
            _ => None,
        }
    } else {
        None
    }
}

/// A device with these ids passes the vendor and product filters.
pub open spec fn ids_match(vid: Option<u16>, pid: Option<u16>, vendor: u16, product: u16) -> bool {
    (vid matches Some(v) ==> v == vendor) && (pid matches Some(p) ==> p == product)
}

/// An id setting is read from a field that holds a non-negative integer
/// `n`, as the low 16 bits of `n`; a missing field or a field of another
/// kind gives no id. A text setting is read only from a field that holds a
/// string.
pub proof fn lemma_settings_fields(fields: Map<Seq<char>, JsonField>, key: Seq<char>)
    ensures
        fields.contains_key(key) && fields[key] is Unsigned ==> id_field(fields, key) == Some(
            (fields[key]->Unsigned_0 % 65536) as u16,
        ),
        !(fields.contains_key(key) && fields[key] is Unsigned) ==> id_field(fields, key) is None,
        fields.contains_key(key) && fields[key] is Text ==> text_field(fields, key) == Some(
            fields[key]->Text_0,
        ),
        !(fields.contains_key(key) && fields[key] is Text) ==> text_field(fields, key) is None,
{
    if fields.contains_key(key) && fields[key] is Unsigned {
        let n = fields[key]->Unsigned_0;
        assert((n as u16) == (n % 65536) as u16) by (bit_vector);
    }
}

/// A device passes the filters exactly when its vendor id equals the vendor
/// filter, if one is set, and its product id equals the product filter, if
/// one is set; without filters every device passes.
pub proof fn lemma_device_filters(vid: Option<u16>, pid: Option<u16>, vendor: u16, product: u16)
    ensures
        vid matches Some(v) && v != vendor ==> !ids_match(vid, pid, vendor, product),
        pid matches Some(p) && p != product ==> !ids_match(vid, pid, vendor, product),
        (vid is None || vid == Some(vendor)) && (pid is None || pid == Some(product)) ==> ids_match(
            vid,
            pid,
            vendor,
            product,
        ),
        forall|a: u16, b: u16| #[trigger] ids_match(None, None, a, b),
{
}

/// Whether a device with these ids passes the vendor and product filters
/// (a filter that is not set lets every device pass).
pub fn device_matches(vid: Option<u16>, pid: Option<u16>, vendor: u16, product: u16) -> (r: bool)
    ensures
        r == ids_match(vid, pid, vendor, product),
        r <==> ((vid is None || vid == Some(vendor)) && (pid is None || pid == Some(product))),
{
    let vendor_ok = match vid {
        Some(v) => v == vendor,
        None => true,
    };
    let product_ok = match pid {
        Some(p) => p == product,
        None => true,
    };
    vendor_ok && product_ok
}

/// Text of the settings, as displayed.
pub open spec fn settings_text(vid: Option<u16>, pid: Option<u16>, serial: Option<Seq<char>>) -> Seq<char> {
    let vendor: nat = match vid {
        Some(v) => v as nat,
        None => 0,
    };
    let model: nat = match pid {
        Some(p) => p as nat,
        None => 0,
    };
    "Settings { vendor: 0x"@ + hex(vendor) + ", model: 0x"@ + hex(model) + ", serial: "@ + match serial {
        Some(s) => "Some("@ + debug_str_text(s) + ")"@,
        None => "None"@,
    } + " }"@
}

/// Reads an id field: its low 16 bits when it holds a non-negative integer.
fn read_id(settings: &Value, key: &str) -> (r: Option<u16>)
    ensures
        r == id_field(json_object_fields(*settings), key@),
{
    match json_field(settings, key) {
        Some(FieldValue::Unsigned(n)) => Some(n as u16),
        _ => None,
    }
}

/// Reads a text field.
fn read_text(settings: &Value, key: &str) -> (r: Option<String>)
    ensures
        opt_text(r) == text_field(json_object_fields(*settings), key@),
{
    match json_field(settings, key) {
        Some(FieldValue::Text(s)) => Some(s),
        _ => None,
    }
}

impl Settings {
    /// Creates a new Settings instance.
    pub fn new() -> (r: Settings)
        ensures
            r.vid is None,
            r.pid is None,
            r.serial is None,
    {
        Settings { vid: None, pid: None, serial: None }
    }

    /// Set the vendor.
    pub fn set_vendor(self, vendor: u16) -> (r: Self)
        ensures
            r.vid == Some(vendor),
            r.pid == self.pid,
            r.serial == self.serial,
    {
        let mut s = self;
        s.vid = Some(vendor);
        s
    }

    /// Set the model.
    pub fn set_model(self, model: u16) -> (r: Self)
        ensures
            r.vid == self.vid,
            r.pid == Some(model),
            r.serial == self.serial,
    {
        let mut s = self;
        s.pid = Some(model);
        s
    }

    /// Takes the serial string from the settings; fails when the field is
    /// missing or is not a string.
    pub fn set_serial_from_json_settings(self, settings: &Value) -> (r: Result<Self, Error>)
        ensures
            ({
                let fields = json_object_fields(*settings);
                let key = SETTINGS_USB_SERIAL_KEY@;
                if !fields.contains_key(key) {
                    r matches Err(Error::BadSettings(m)) && m@ == "Unable to get \"usb_serial\""@
                } else {
                    match fields[key] {
                        JsonField::Text(t) => r matches Ok(s) && s.vid == self.vid && s.pid
                            == self.pid && opt_text(s.serial) == Some(t),
                        _ => r matches Err(Error::BadSettings(m)) && m@
                            == "\"usb_serial\" not a string"@,
                    }
                }
            }),
    {
        proof {
            reveal_strlit("usb_serial");
        }
        match json_field(settings, SETTINGS_USB_SERIAL_KEY) {
            None => Err(Error::BadSettings("Unable to get \"usb_serial\"".to_owned())),
            Some(FieldValue::Text(t)) => {
                let mut s = self;
                s.serial = Some(t);
                Ok(s)
            },
            Some(_) => Err(Error::BadSettings("\"usb_serial\" not a string".to_owned())),
        }
    }

    /// Like `set_serial_from_json_settings` but with a default value in case
    /// of error on settings extraction.
    pub fn set_serial_from_json_settings_or(self, settings: &Value, default: &str) -> (r: Self)
        ensures
            r.vid == self.vid,
            r.pid == self.pid,
            opt_text(r.serial) == Some(
                match text_field(json_object_fields(*settings), SETTINGS_USB_SERIAL_KEY@) {
                    Some(t) => t,
                    None => default@,
                },
            ),
    {
        let serial = match read_text(settings, SETTINGS_USB_SERIAL_KEY) {
            Some(t) => t,
            None => default.to_owned(),
        };
        let mut s = self;
        s.serial = Some(serial);
        s
    }

    /// Look into a json settings object and try to extract usb
    /// configuration: the ids are kept when absent, the serial string is
    /// replaced.
    pub fn optional_set_serial_from_json_settings(self, settings: &Value) -> (r: Self)
        ensures
            ({
                let fields = json_object_fields(*settings);
                &&& r.vid == match id_field(fields, SETTINGS_USB_VID_KEY@) {
                    Some(v) => Some(v),
                    None => self.vid,
                }
                &&& r.pid == match id_field(fields, SETTINGS_USB_PID_KEY@) {
                    Some(p) => Some(p),
                    None => self.pid,
                }
                &&& opt_text(r.serial) == text_field(fields, SETTINGS_USB_SERIAL_KEY@)
            }),
    {
        let mut s = self;
        if let Some(v) = read_id(settings, SETTINGS_USB_VID_KEY) {
            s.vid = Some(v);
        }
        if let Some(p) = read_id(settings, SETTINGS_USB_PID_KEY) {
            s.pid = Some(p);
        }
        s.serial = read_text(settings, SETTINGS_USB_SERIAL_KEY);
        s
    }

    /// Look into a json settings object and try to extract usb configuration.
    pub fn from_json_settings(json_settings: &Value) -> (r: Self)
        ensures
            ({
                let fields = json_object_fields(*json_settings);
                &&& r.vid == id_field(fields, SETTINGS_USB_VID_KEY@)
                &&& r.pid == id_field(fields, SETTINGS_USB_PID_KEY@)
                &&& opt_text(r.serial) == text_field(fields, SETTINGS_USB_SERIAL_KEY@)
            }),
    {
        let vid = read_id(json_settings, SETTINGS_USB_VID_KEY);
        let pid = read_id(json_settings, SETTINGS_USB_PID_KEY);
        let serial = read_text(json_settings, SETTINGS_USB_SERIAL_KEY);
        Self { vid, pid, serial }
    }

    /// Among the ids of the connected devices, the index of the last one
    /// that passes the vendor and product filters.
    pub fn select_device(&self, devices: &[(u16, u16)]) -> (r: Option<usize>)
        ensures
            match r {
                Some(i) => i < devices@.len() && ids_match(
                    self.vid,
                    self.pid,
                    devices@[i as int].0,
                    devices@[i as int].1,
                ) && forall|j: int|
                    i < j < devices@.len() ==> !ids_match(
                        self.vid,
                        self.pid,
                        (#[trigger] devices@[j]).0,
                        devices@[j].1,
                    ),
                None => forall|j: int|
                    0 <= j < devices@.len() ==> !ids_match(
                        self.vid,
                        self.pid,
                        (#[trigger] devices@[j]).0,
                        devices@[j].1,
                    ),
            },
            r matches Some(i) ==> (self.vid matches Some(v) ==> devices@[i as int].0 == v),
            r matches Some(i) ==> (self.pid matches Some(p) ==> devices@[i as int].1 == p),
    {
        proof {
            lemma_device_filters(self.vid, self.pid, 0, 0);
        }
        let mut found: Option<usize> = None;
        let mut i: usize = 0;
        while i < devices.len()
            invariant
                i <= devices@.len(),
                match found {
                    Some(k) => k < i && ids_match(
                        self.vid,
                        self.pid,
                        devices@[k as int].0,
                        devices@[k as int].1,
                    ) && forall|j: int|
                        k < j < i ==> !ids_match(
                            self.vid,
                            self.pid,
                            (#[trigger] devices@[j]).0,
                            devices@[j].1,
                        ),
                    None => forall|j: int|
                        0 <= j < i ==> !ids_match(
                            self.vid,
                            self.pid,
                            (#[trigger] devices@[j]).0,
                            devices@[j].1,
                        ),
                },
            decreases devices@.len() - i,
        {
            let (vendor, product) = devices[i];
            if device_matches(self.vid, self.pid, vendor, product) {
                found = Some(i);
            }
            i = i + 1;
        }
        found
    }

    /// The settings as displayed:
    /// "Settings { vendor: 0x1a2b, model: 0x3c4d, serial: Some(\"abc\") }".
    pub fn to_string(&self) -> (r: String)
        ensures
            r@ == settings_text(self.vid, self.pid, opt_text(self.serial)),
    {
        let vendor: u16 = match self.vid {
            Some(v) => v,
            None => 0,
        };
        let model: u16 = match self.pid {
            Some(p) => p,
            None => 0,
        };
        let mut t = "Settings { vendor: 0x".to_owned();
        t.append(hex_string(vendor as u64).as_str());
        t.append(", model: 0x");
        t.append(hex_string(model as u64).as_str());
        t.append(", serial: ");
        match &self.serial {
            Some(s) => {
                t.append("Some(");
                t.append(debug_str(s.as_str()).as_str());
                t.append(")");
            },
            None => {
                t.append("None");
            },
        }
        t.append(" }");
        t
    }
}

} // verus!
