[package]
name = "partymode"
version = "0.1.0"
edition = "2021"
publish = false

[dependencies]
itertools = "*"
clap = "*"
serde = { version = "*", features = ["derive"] }
toml = "*"
tokio = { version = "*", features = ["full"] }
zbus = { version = "*", default-features = false, features = ["tokio"] }
signal-hook = "*"
