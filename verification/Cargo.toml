[package]
name = "hd_oracle"
version = "0.1.0"
edition = "2021"
publish = false

[dependencies]
bitcoin = "0.25"
rand = "0.8"
serde = { version = "1", features = ["derive"] }
serde_json = "1"
tokio = { version = "1", features = ["net", "rt", "io-util", "macros"] }
