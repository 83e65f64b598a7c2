[package]
name = "rustypass"
version = "0.1.0"
edition = "2021"
publish = false

[dependencies]
aead = { version = "=0.5.2", features = ["alloc"] }
aes-gcm-siv = "=0.11.1"
argon2 = "=0.4.1"
chacha20poly1305 = "=0.10.1"
digest = "=0.10.7"
generic-array = "=0.14.7"
iced = "0.4"
linkme = "=0.3.37"
once_cell = "=1.21.4"
postcard = { version = "=1.1.3", features = ["alloc"] }
rand = "=0.8.8"
rfd = "0.10"
serde = { version = "=1.0.229", features = ["derive"] }
serde_json = "=1.0.154"
sha2 = "=0.10.9"
tokio = { version = "=1.54.1", features = ["sync"] }
tui = { version = "=0.19.0", default-features = false }
zeroize = "=1.9.1"
