[package]
name = "holochain_runtime"
version = "0.1.0"
edition = "2021"
publish = false

[dependencies]
portpicker = "*"
zip = { version = "*", default-features = false }
url = "*"
log = "*"
