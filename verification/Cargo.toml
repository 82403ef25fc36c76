[package]
name = "hw_metrics"
version = "0.1.0"
edition = "2021"
publish = false

[dependencies]
sysinfo = "=0.25.3"
actix-web = { version = "=4.18.1", default-features = false, features = ["macros"] }
actix-cors = "=0.6.5"
serde = { version = "=1.0.229", features = ["derive"] }
tokio = { version = "=1.54.1", features = ["time", "rt"] }
