[package]
name = "hyper_compat"
version = "0.1.0"
edition = "2021"
publish = false

[dependencies]
bytes = "1"
futures-util = "0.3"
http = "0.2"
http-body = "0.4"
hyper = { version = "1", features = ["http1", "server"] }
pin-project-lite = "0.2"
tls-listener = "*"
tower = { version = "0.4", features = ["util"] }
tracing = "0.1"
