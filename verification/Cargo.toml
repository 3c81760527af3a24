[package]
name = "rplaid"
version = "0.1.0"
edition = "2021"
publish = false

[dependencies]
http = "0.2"
hyper = { version = "0.14", features = ["client", "http1", "tcp"] }
hyper-tls = "0.5"
rust_decimal = "1"
serde = { version = "1", features = ["derive"] }
serde_json = "1"
thiserror = "1"
