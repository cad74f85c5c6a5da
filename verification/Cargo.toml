[package]
name = "factory_sim"
version = "0.1.0"
edition = "2021"
publish = false

[dependencies]
rand = "=0.8.8"
serde = { version = "1", features = ["derive"] }
serde_json = "1"
jsonschema = { version = "=0.58.6", default-features = false, features = ["resolve-file"] }
actix-web = { version = "4", default-features = false, features = ["macros"] }
actix-files = "*"
local-ip-address = "*"
in-container = "*"
log2 = "*"
chrono = "0.4"
anyhow = "1"
