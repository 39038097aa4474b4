[package]
name = "http_body_writer"
version = "0.1.0"
edition = "2021"
publish = false

[dependencies]
bytes = "1"
futures = "0.3"
http = "0.2"
hyper = { version = "0.14", features = ["client", "http1", "server", "stream", "runtime"] }
pin-project = "1"

[dev-dependencies]
tokio = { version = "1", features = ["rt", "io-util", "time"] }
