[package]
name = "bookcorpus"
version = "0.1.0"
edition = "2021"
publish = false

[dependencies]
archiver-rs = "*"
dirs = "5"
futures = "0.3"
indicatif = "0.17"
rand = "0.8"
reqwest = { version = "0.12", features = ["stream"] }
thiserror = "1"
tokio = { version = "1", features = ["fs", "io-util", "macros", "rt-multi-thread"] }
