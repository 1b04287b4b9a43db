[package]
name = "ibrus"
version = "0.1.0"
edition = "2021"
publish = false

[dependencies]
serde_json = "1"
tokio = { version = "1", features = ["full"] }
zbus = "*"
log = "0.4"

[dev-dependencies]
xkeysym = "*"
