[package]
name = "client_lib"
version = "0.1.0"
edition = "2021"
publish = false

[dependencies]
chrono = "=0.4.45"
rand = "=0.10.3"
rusqlite = "=0.41.1"
serde = { version = "=1.0.229", features = ["derive"] }
ndarray = "=0.16.1"
ort = { version = "=2.0.0-rc.10", default-features = false, features = ["ndarray"] }
rdev = "=0.5.3"
active-win-pos-rs = "=0.11.0"
