[package]
name = "relay_node"
version = "0.1.0"
edition = "2021"
publish = false

[dependencies]
libp2p = { version = "0.52", features = ["async-std", "ed25519", "identify", "macros", "ping", "relay", "tcp", "tls", "yamux"] }
clap = { version = "4", features = ["derive"] }
daemonize = "0.5"
env_logger = "0.10"
futures = "0.3"
