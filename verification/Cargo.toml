[package]
name = "fiber_protocol"
version = "0.1.0"
edition = "2021"
publish = false

[dependencies]
async-trait = "*"
blake2b-rs = "*"
chrono = "*"
hex = "*"
rand = "*"
reqwest = { version = "*", default-features = false, features = ["json"] }
secp256k1 = "*"
serde = { version = "*", features = ["derive"] }
serde_json = "*"
sha2 = "*"
thiserror = "*"
tokio = { version = "*", features = ["rt", "macros", "time"] }
uuid = { version = "*", features = ["v4"] }
