[package]
name = "torproxy"
version = "0.1.0"
edition = "2021"
publish = false

[dependencies]
port_scanner = "*"
telnet = "*"
shiplift = "*"
tokio = { version = "*", features = ["rt-multi-thread"] }
futures = "*"
argparse = "*"
