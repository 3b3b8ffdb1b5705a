[package]
name = "socks5_relay"
version = "0.1.0"
edition = "2021"
publish = false

[dependencies]
tokio = { version = "*", features = ["rt-multi-thread", "net", "io-util", "macros"] }
clap = { version = "*", features = ["derive"] }
clap_derive = "*"
dns-lookup = "*"
env_logger = "*"
log = "*"
