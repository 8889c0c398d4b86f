[package]
name = "powerdns"
version = "0.1.0"
edition = "2021"
publish = false

[dependencies]
addr = "*"
serde = { version = "*", features = ["derive"] }
serde_json = "*"
serde_with = "*"
thiserror = "*"
reqwest = { version = "*", default-features = false, features = ["json"] }
