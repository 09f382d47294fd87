[package]
name = "archeon"
version = "0.1.0"
edition = "2021"
publish = false

[dependencies]
hyper = { version = "0.14", features = ["full"] }
hyper-tls = "0.5"
tokio = { version = "1", features = ["full"] }
indicatif = "0.17"

[dev-dependencies]
mockito = "0.31"
