[package]
name = "panduza_platform_core"
version = "0.1.0"
edition = "2021"
publish = false

[dependencies]
bytes = "1"
byteorder = "1"
serial-line-ip = "*"
serde = { version = "1", features = ["derive"] }
serde_json = "1"
thiserror = "*"
tokio = { version = "1", features = ["rt", "sync", "time", "macros", "io-util", "net"] }
async-trait = "*"
futures = "*"
nusb = "0.1"
serial2-tokio = "*"
async-tftp = "*"
rumqttc = { version = "*", default-features = false }
zenoh = { version = "*", default-features = false }
