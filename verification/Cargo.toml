[package]
name = "aura"
version = "0.1.0"
edition = "2021"
publish = false

[dependencies]
argon2 = "0.5"
chacha20poly1305 = "0.10"
chrono = "0.4"
getrandom = "0.3"
hex = "0.4"
sha2 = "0.10"
rusqlite = { version = "0.32", features = ["bundled"] }
serde = { version = "1", features = ["derive"] }
serde_json = "1"
uuid = { version = "1", features = ["v4"] }
ureq = { version = "2", features = ["json"] }
