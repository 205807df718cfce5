[package]
name = "spotibot"
version = "0.1.0"
edition = "2021"
publish = false

[dependencies]
chacha20poly1305 = "=0.10.1"
dialoguer = "=0.11.0"
dotenvy = "=0.15.7"
hex = "=0.4.3"
librespot-connect = { version = "=0.8.0", default-features = false, features = ["rustls-tls-webpki-roots"] }
librespot-core = { version = "=0.8.0", default-features = false, features = ["rustls-tls-webpki-roots"] }
librespot-metadata = { version = "=0.8.0", default-features = false, features = ["rustls-tls-webpki-roots"] }
librespot-playback = { version = "=0.8.0", default-features = false, features = ["rustls-tls-webpki-roots"] }
parking_lot = "=0.12.5"
pbkdf2 = { version = "=0.12.2", default-features = false, features = ["hmac"] }
rand = "=0.8.8"
reqwest = { version = "=0.12.28", default-features = false, features = ["json", "rustls-tls"] }
rusqlite = { version = "=0.31.0", features = ["bundled"] }
serde = { version = "=1.0.229", features = ["derive"] }
serde_json = "=1.0.154"
serenity = { version = "0.12", default-features = false, features = ["http", "model", "rustls_backend"] }
sha2 = "=0.10.9"
thiserror = "=1.0.69"
tokio = { version = "=1.54.1", features = ["full"] }
tokio-util = "=0.7.20"
tracing = "=0.1.44"
url = "=2.5.8"
uuid = { version = "=1.29.0", features = ["v4"] }

[dev-dependencies]
# Held back: librespot-core's build script does not compile against 9.1.
vergen = { version = "=9.0.6", default-features = false }
