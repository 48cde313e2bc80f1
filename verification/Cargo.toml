[package]
name = "rat"
version = "0.1.0"
edition = "2021"
publish = false

[dependencies]
base64 = "=0.13.1"
chacha20poly1305 = "0.10"
dirs = "5"
dotenv = "0.15"
ed25519-dalek = "2"
env_logger = "0.10"
log = "0.4"
native-tls = "0.2"
rand = "0.8"
serde = { version = "1", features = ["derive"] }
serde_json = "1"
single-instance = "0.3"
ssh2 = "0.9"
ureq = { version = "2", features = ["json", "native-tls"] }
uuid = { version = "1", features = ["serde"] }
x25519-dalek = { version = "2", features = ["static_secrets"] }
zip = { version = "0.6", default-features = false, features = ["deflate"] }
