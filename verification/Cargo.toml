[package]
name = "exonum_dispatch"
version = "0.1.0"
edition = "2021"
publish = false

[dependencies]
futures = "0.1"
futures-util = { version = "0.3", features = ["compat"] }
tokio = { version = "0.2", features = ["rt-core", "time"] }
tokio-compat = "0.1"
failure = "0.1"
structopt = "0.3"
tempfile = "3"
