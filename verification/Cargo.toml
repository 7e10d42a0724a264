[package]
name = "mac_soft_rs"
version = "0.1.0"
edition = "2021"
publish = false

[dependencies]
url = "*"
serde = { version = "*", features = ["derive"] }
reqwest = { version = "*", default-features = false, features = ["json"] }
tokio = { version = "*", features = ["fs", "io-util", "macros", "rt-multi-thread"] }
dialoguer = "*"
indicatif = "*"
dirs = "*"
