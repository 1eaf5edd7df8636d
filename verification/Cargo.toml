[package]
name = "reviewist"
version = "0.1.0"
edition = "2021"
publish = false

[dependencies]
chrono = { version = "0.4", default-features = false, features = ["std"] }
hyper = "0.11"
hyperx = "1"
serde = { version = "1", features = ["derive"] }
serde_json = "1"
tokio-retry = "0.3"
url = "2"
reqwest = { version = "0.12", default-features = false, features = ["rustls-tls"] }
tokio = { version = "1", features = ["rt-multi-thread", "time"] }
futures = "0.3"
diesel = { version = "2", features = ["sqlite"] }
libsqlite3-sys = { version = "*", features = ["bundled"] }
slog = "2"
dotenv = "0.15"
