[package]
name = "passivized_test_support"
version = "0.1.0"
edition = "2021"
publish = false

[dependencies]
backoff = { version = "0.4", features = ["tokio"] }
http = "1"
http-body-util = "0.1"
hyper = "1"
hyper-tls = "0.6"
hyper-util = { version = "0.1", features = ["client-legacy", "http1", "tokio"] }
log = "0.4"
native-tls = "0.2"
simple_logger = { version = "5", features = ["threads"] }
thiserror = "1"
time = { version = "0.3", features = ["formatting"] }
tokio = { version = "1", features = ["net", "time", "rt", "macros"] }
