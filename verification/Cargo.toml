[package]
name = "metaphy_network"
version = "0.1.0"
edition = "2021"
publish = false

[dependencies]
libp2p = { version = "0.55", features = ["async-std", "dcutr", "ed25519", "identify", "kad", "macros", "mdns", "noise", "ping", "relay", "rendezvous", "tcp", "tokio", "yamux"] }
tokio = { version = "1", features = ["sync", "macros", "rt-multi-thread"] }
async-std = { version = "1", features = ["attributes"] }
futures = "0.3"
log = "0.4"
env_logger = "0.11"
tracing-subscriber = { version = "0.3", features = ["env-filter"] }
