[package]
name = "google_maps_connectrpc"
version = "0.1.0"
edition = "2021"
publish = false

[dependencies]
bytes = "=1.12.1"
chrono = { version = "=0.4.45", default-features = false, features = ["std", "clock"] }
connectrpc = "=0.9.1"
http = "=1.5.0"
http-body-util = "=0.1.5"
pin-project-lite = "=0.2.17"
serde = "=1.0.229"
serde_json = "=1.0.154"
tower = { version = "=0.5.3", default-features = false }
worker = "=0.8.7"
