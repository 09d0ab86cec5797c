[package]
name = "promptpilot_core"
version = "0.1.0"
edition = "2021"
publish = false

[dependencies]
base64 = "0.21"
chacha20poly1305 = "0.10"
dirs = "5"
ed25519-dalek = { version = "2", features = ["rand_core", "pkcs8"] }
nanoid = "0.4"
rand = "0.8"
reqwest = { version = "0.11", default-features = false, features = ["blocking", "json"] }
rusqlite = { version = "0.31", features = ["bundled"] }
serde = { version = "1", features = ["derive"] }
sha2 = "0.10"
