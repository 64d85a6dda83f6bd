[package]
name = "popsigner"
version = "0.1.0"
edition = "2021"
publish = false

[dependencies]
async-trait = "=0.1.92"
base64 = "=0.23.1"
hex = "=0.4.3"
reqwest = { version = "=0.13.5", default-features = false, features = ["json"] }
ripemd = "=0.2.0"
serde = { version = "=1.0.229", features = ["derive"] }
serde_json = "=1.0.151"
sha2 = "=0.11.0"
uuid = { version = "=1.27.0", features = ["serde"] }

[dev-dependencies]
bech32 = "=0.12.0"
