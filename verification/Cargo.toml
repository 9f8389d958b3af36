[package]
name = "signage_core"
version = "0.1.0"
edition = "2021"
publish = false

[dependencies]
prettytable-rs = "*"
indicatif = "*"
serde = { version = "*", features = ["derive"] }
serde_json = "*"
serde_yaml = "*"
thiserror = "*"
reqwest = { version = "*", default-features = false, features = ["blocking", "json"] }
