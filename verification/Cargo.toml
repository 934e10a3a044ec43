[package]
name = "lonis"
version = "0.1.0"
edition = "2021"
publish = false

[dependencies]
serde = { version = "1", features = ["derive"] }
serde_json = "1"
clap = { version = "4", features = ["derive"] }
thiserror = "2"
futures-channel = "0.3"
syn = { version = "2", features = ["full"] }
quote = "1"
proc-macro2 = "1"
