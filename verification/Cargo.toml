[package]
name = "serialize_rust"
version = "0.1.0"
edition = "2021"
publish = false

[dependencies]
rand = "0.8"
serde = { version = "1", features = ["derive"] }
serde_json = "1"
rmp-serde = "1"
serde-xml-rs = "*"
prost = "*"
sysinfo = "0.30"
