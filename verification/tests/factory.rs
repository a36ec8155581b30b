use panduza_platform_core::factory::producer_ref;
use panduza_platform_core::factory::production_order::ProductionOrder;
use panduza_platform_core::factory::store::{Product, Store};
use serde_json::Value;

fn product(description: &str) -> Product {
    Product {
        description: description.to_string(),
        props: Value::Null,
    }
}

#[test]
fn store_contains_and_extend() {
    let mut a = Store::default();
    a.insert("acme.x".to_string(), product("old x"));
    a.insert("acme.y".to_string(), product("y"));
    let mut b = Store::new();
    b.insert("acme.x".to_string(), product("new x"));
    b.insert("acme.z".to_string(), product("z"));

    a.extend_by_copy(&b);

    assert!(a.contains(&"acme.x".to_string()));
    assert!(a.contains(&"acme.y".to_string()));
    assert!(a.contains(&"acme.z".to_string()));
    assert!(!a.contains(&"acme.w".to_string()));
    let entries = a.entries();
    assert_eq!(entries.len(), 3);
    let x = entries.iter().find(|(k, _)| k == "acme.x").unwrap();
    assert_eq!(x.1.description, "new x");
    assert!(b.contains(&"acme.z".to_string()));
    assert_eq!(b.entries().len(), 2);
}

#[test]
fn store_insert_replaces() {
    let mut s = Store::new();
    s.insert("r".to_string(), product("1"));
    s.insert("r".to_string(), product("2"));
    let entries = s.entries();
    assert_eq!(entries.len(), 1);
    assert_eq!(entries[0].1.description, "2");
}

#[test]
fn product_default_and_clone() {
    let p = Product::default();
    assert_eq!(p.description, "");
    assert_eq!(p.props, Value::Null);
    let q = product("d").clone();
    assert_eq!(q.description, "d");
}

#[test]
fn producer_reference() {
    assert_eq!(producer_ref("panduza", "fake_device"), "panduza.fake_device");
}

#[test]
fn production_order_settings() {
    let order = ProductionOrder::new("panduza.fake", "dev1")
        .add_u16_setting("port", 8080)
        .add_string_setting("ip", "10.0.0.1")
        .add_u16_setting("port", 9090);
    assert_eq!(order.name, "dev1");
    assert_eq!(order.dref(), "panduza.fake");
    let settings = order.settings.unwrap();
    assert_eq!(settings.get("port").unwrap().as_u64(), Some(9090));
    assert_eq!(settings.get("ip").unwrap().as_str(), Some("10.0.0.1"));
    assert_eq!(settings.as_object().unwrap().len(), 2);
}
