[package]
name = "ogurpchik"
version = "0.1.0"
edition = "2021"
publish = false

[dependencies]
hmac = "=0.12.1"
sha2 = "=0.10.9"
getrandom = "=0.3.4"
base64 = "=0.22.1"
ed25519-dalek = "=2.2.0"
capnp = "=0.27.3"
serde = { version = "=1.0.229", features = ["derive"] }
serde_json = "=1.0.154"
libc = "=0.2.191"
inotify = { version = "=0.11.5", default-features = false }
object-pool = "*"
