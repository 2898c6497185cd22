[package]
name = "smart_uuid"
version = "0.1.0"
edition = "2021"
publish = false

[dependencies]
uuid = { version = "1", features = ["v8", "serde"] }
rand = "0.8"
serde = "1"
thiserror = "1"
syn = "2"
quote = "1"
proc-macro2 = "1"
