[package]
name = "xcomm"
version = "0.1.0"
edition = "2021"
publish = false

[dependencies]
futures = "0.3"
hex = "0.4"
libp2p = { version = "0.54", features = ["tokio", "tcp", "noise", "yamux", "quic", "gossipsub", "kad", "mdns", "upnp", "autonat", "relay", "dcutr", "macros", "ed25519", "dns"] }
tokio = { version = "1", features = ["macros", "rt-multi-thread", "io-std", "io-util", "time"] }
tracing-subscriber = { version = "0.3", features = ["env-filter"] }
