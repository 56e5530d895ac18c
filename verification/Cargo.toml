[package]
name = "iroh_http_server"
version = "0.6.3"
edition = "2021"
publish = false

[dependencies]
hyper = { version = "1", features = ["http1", "server"] }
hyper-util = { version = "0.1", features = ["tokio", "service"] }
iroh = { version = "*", default-features = false }
thiserror = "2"
tokio = { version = "1", features = ["macros", "rt", "rt-multi-thread", "sync", "time"] }
tower = { version = "0.5", features = ["limit", "load-shed", "timeout", "util"] }
tower-http = { version = "0.6", features = ["add-extension"] }
tracing = "0.1"
