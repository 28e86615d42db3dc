[package]
name = "railview"
version = "0.1.0"
edition = "2021"
publish = false

[dependencies]
prost = "=0.14.4"
gtfs-structures = { version = "=0.50.1", features = ["read-url"] }
reqwest = { version = "=0.12.28", default-features = false, features = ["rustls-tls"] }
serde = { version = "=1.0.229", features = ["derive"] }
serde_json = "=1.0.151"
tokio = { version = "=1.53.2", features = ["rt-multi-thread", "macros", "time"] }
