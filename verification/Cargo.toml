[package]
name = "pim"
version = "0.1.0"
edition = "2021"
publish = false

[dependencies]
anyhow = "=1.0.104"
chrono = { version = "=0.4.45", default-features = false, features = ["clock", "std"] }
jsonwebtoken = "=9.3.1"
reqwest = { version = "=0.12.28", default-features = false, features = ["json"] }
serde = { version = "=1.0.229", features = ["derive"] }
serde_json = { version = "=1.0.154", features = ["preserve_order"] }
url = "=2.5.8"
uuid = { version = "=1.29.0", features = ["v4"] }
thiserror = "=1.0.69"
tokio = { version = "=1.54.1", features = ["full"] }
config = { version = "=0.14.1", default-features = false, features = ["toml"] }
tracing = "=0.1.44"
tracing-subscriber = { version = "=0.3.23", features = ["env-filter", "fmt"] }
metrics = "=0.24.6"
metrics-exporter-prometheus = { version = "=0.18.3", default-features = false }
hyper = { version = "=1.12.0", features = ["server", "http1"] }
hyper-util = { version = "=0.1.21", features = ["tokio"] }
http-body-util = "=0.1.5"
bytes = "=1.12.1"
actix-web = { version = "=4.18.1", default-features = false, features = ["macros"] }
futures-util = "=0.3.34"
tower = "=0.5.3"
http = "=1.5.0"
http-body = "=1.1.0"
pin-project-lite = "=0.2.17"
