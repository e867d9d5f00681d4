[package]
name = "ethist"
version = "0.1.0"
edition = "2021"
publish = false

[dependencies]
chrono = "=0.4.45"
futures = "=0.3.34"
librespot = { version = "=0.8.0", default-features = false, features = ["rustls-tls-webpki-roots", "with-libmdns"] }
reqwest = { version = "=0.12.28", default-features = false, features = ["rustls-tls"] }
tokio = { version = "=1.53.2", features = ["macros", "rt-multi-thread"] }
vergen = "=9.0.6"
