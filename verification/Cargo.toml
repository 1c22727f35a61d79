[package]
name = "photosort"
version = "0.1.0"
edition = "2021"
publish = false

[dependencies]
anyhow = "1"
async-trait = "0.1"
thiserror = "1"
tokio = { version = "1", features = ["fs", "io-util", "process", "macros", "rt-multi-thread"] }
