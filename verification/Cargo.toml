[package]
name = "socks5_server"
version = "0.1.0"
edition = "2021"
publish = false

[dependencies]
socks5-proto = "*"
tokio = { version = "*", features = ["net", "io-util", "rt", "rt-multi-thread", "time"] }
bytes = "*"
