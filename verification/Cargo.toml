[package]
name = "nostr-ln"
version = "0.1.0"
edition = "2021"
publish = false

[dependencies]
nostr = { version = "=0.44.8", features = ["std", "nip44"] }
nostr-sdk = { version = "=0.44.1", features = ["nip44"] }
serde = { version = "=1.0.229", features = ["derive"] }
serde_json = "=1.0.154"
tokio = { version = "=1.54.1", features = ["rt-multi-thread", "time", "macros", "sync"] }
