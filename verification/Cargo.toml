[package]
name = "hello_http"
version = "0.1.0"
edition = "2021"
publish = false

[dependencies]
hyper = { version = "0.14", default-features = false, features = ["http1", "server", "tcp"] }
tokio = { version = "1", default-features = false, features = ["rt-multi-thread", "macros", "net"] }
