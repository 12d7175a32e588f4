[package]
name = "udp_tunnel"
version = "0.1.0"
edition = "2021"
publish = false

[dependencies]
aead = "0.5"
aes-gcm = "0.10"
chacha20poly1305 = "0.10"
dashmap = "5"
mio = { version = "0.8", features = ["net", "os-poll"] }
rand = "0.8"
serde = { version = "1", features = ["derive"] }
serde_yaml = "0.9"
uuid = { version = "1", features = ["v4"] }
