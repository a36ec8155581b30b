//! Order to produce an instance of a driver.
use crate::json::{json_empty_object, json_insert_string, json_insert_u16, json_is_object, json_object_fields, JsonField};
use serde_json::Value;
use vstd::prelude::*;

verus! {

/// Settings of an instance: a JSON object.
pub type InstanceSettings = Value;

/// Order to produce an instance of a driver.
#[derive(Debug)]
pub struct ProductionOrder {
    /// Name of the device to be produced
    pub name: String,
    /// Reference of driver device producer
    pub dref: String,
    /// Settings of the instance
    pub settings: Option<InstanceSettings>,
}

/// The settings fields of an order: none when it has no settings.
pub open spec fn settings_fields(settings: Option<Value>) -> Map<Seq<char>, JsonField> {
    match settings {
        Some(v) => json_object_fields(v),
        None => Map::empty(),
    }
}

/// Settings to which a field can be added: none yet, or an object.
pub open spec fn settings_extensible(settings: Option<Value>) -> bool {
    match settings {
        Some(v) => json_is_object(v),
        None => true,
    }
}

impl ProductionOrder {
    /// Constructor.
    pub fn new(d_ref: &str, d_name: &str) -> (r: ProductionOrder)
        ensures
            r.name@ == d_name@,
            r.dref@ == d_ref@,
            r.settings is None,
    {
        ProductionOrder { name: d_name.to_owned(), dref: d_ref.to_owned(), settings: None }
    }

    /// Adds a numeric setting; the settings object is created first if the
    /// order has none.
    pub fn add_u16_setting(self, name: &str, setting: u16) -> (r: Self)
        requires
            settings_extensible(self.settings),
        ensures
            r.name == self.name,
            r.dref == self.dref,
            r.settings matches Some(v) && json_is_object(v),
            settings_fields(r.settings) == settings_fields(self.settings).insert(
                name@,
                JsonField::Unsigned(setting as u64),
            ),
    {
        let mut order = self;
        let mut se = match order.settings {
            Some(v) => v,
            None => json_empty_object(),
        };
        json_insert_u16(&mut se, name.to_owned(), setting);
        order.settings = Some(se);
        order
    }

    /// Adds a text setting; the settings object is created first if the
    /// order has none.
    pub fn add_string_setting(self, name: &str, setting: &str) -> (r: Self)
        requires
            settings_extensible(self.settings),
        ensures
            r.name == self.name,
            r.dref == self.dref,
            r.settings matches Some(v) && json_is_object(v),
            settings_fields(r.settings) == settings_fields(self.settings).insert(
                name@,
                JsonField::Text(setting@),
            ),
    {
        let mut order = self;
        let mut se = match order.settings {
            Some(v) => v,
            None => json_empty_object(),
        };
        json_insert_string(&mut se, name.to_owned(), setting.to_owned());
        order.settings = Some(se);
        order
    }

    /// Reference of the driver to produce.
    pub fn dref(&self) -> (r: &String)
        ensures
            r == &self.dref,
    {
        &self.dref
    }
}

} // verus!
