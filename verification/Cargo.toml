[package]
name = "openwork_workspace"
version = "0.1.0"
edition = "2021"
publish = false

[dependencies]
json5 = "0.4"
serde_json = "1"
zip = { version = "2", default-features = false, features = ["deflate"] }
ureq = "2"
