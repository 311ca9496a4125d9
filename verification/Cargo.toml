[package]
name = "tenant_proxy"
version = "0.1.0"
edition = "2021"
publish = false

[dependencies]
hyper = { version = "0.14", features = ["full"] }
hyper-reverse-proxy = "0.5"
tokio = { version = "1", features = ["full"] }
futures = "0.3"
signal-hook = "0.3"
chrono = "0.4"
diesel = { version = "2", features = ["mysql", "chrono", "r2d2"] }
r2d2 = "0.8"
dotenv = "0.15"
log = "0.4"
fern = "0.6"
serde = { version = "1", features = ["derive"] }
serde_json = "1"
lazy_static = "1"
