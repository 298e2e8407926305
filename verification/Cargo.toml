[package]
name = "graphql_server"
version = "0.1.0"
edition = "2021"
publish = false

[dependencies]
hyper = { version = "0.14", features = ["server", "http1", "tcp"] }
futures = "0.3"
tokio = { version = "1", features = ["net", "rt"] }
