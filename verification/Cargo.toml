[package]
name = "unix_connector"
version = "0.1.0"
edition = "2021"
publish = false

[dependencies]
hyper = { version = "0.14", default-features = false, features = ["client"] }
tokio = { version = "1", default-features = false, features = ["net"] }
pin-project = "1"
unix_socket = "0.5"
