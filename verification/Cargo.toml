[package]
name = "scm_client"
version = "0.1.0"
edition = "2021"
publish = false

[dependencies]
anyhow = "*"
clap = { version = "*", default-features = false, features = ["std"] }
ethers = { version = "*", default-features = false }
hex = "*"
tokio = { version = "*", features = ["rt-multi-thread", "macros"] }
