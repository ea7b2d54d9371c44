[package]
name = "hammer"
version = "0.1.0"
edition = "2021"
publish = false

[dependencies]
yaml-rust = "=0.4.5"
time = "=0.1.45"
irc = "=1.1.0"
log = "=0.4.34"
log4rs = "=1.4.0"
tokio = { version = "=1.53.2", features = ["rt"] }
futures-util = "=0.3.34"
