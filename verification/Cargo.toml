[package]
name = "subalfred"
version = "0.1.0"
edition = "2021"
publish = false

[dependencies]
subhasher = "*"
array-bytes = "*"
serde = { version = "*", features = ["derive"] }
serde_json = "*"
isahc = "*"
clap = { version = "*", features = ["derive"] }
anyhow = "*"
subrpcer = "*"
