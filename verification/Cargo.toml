[package]
name = "pragmalink"
version = "0.1.0"
edition = "2021"
publish = false

[dependencies]
anyhow = "1"
hex = "0.4"
libp2p = { version = "*", features = ["ed25519", "identify", "kad", "macros", "noise", "tcp", "tls", "tokio", "yamux"] }
libp2p-gossipsub = "*"
tokio = { version = "1", features = ["macros", "rt", "sync"] }
tracing = "0.1"
