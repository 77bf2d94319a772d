[package]
name = "quickwit"
version = "0.1.0"
edition = "2021"
publish = false

[dependencies]
anyhow = "1"
elasticsearch-dsl = "0.4"
http-serde = "1"
hyper = "0.14"
rusoto_kinesis = { version = "0.48", default-features = false, features = ["rustls"] }
serde = { version = "1", features = ["derive"] }
serde_json = "1"
tokio = { version = "1", features = ["rt", "sync", "time"] }
