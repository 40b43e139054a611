[package]
name = "piping_server"
version = "0.1.0"
edition = "2021"
publish = false

[dependencies]
mime = "=0.3.17"
url = "=2.5.8"
http = "=0.2.12"
hyper = { version = "=0.14.32", features = ["stream"] }
futures = "=0.3.34"
mpart-async = "=0.6.1"
serde_urlencoded = "=0.7.1"
log = "=0.4.34"
