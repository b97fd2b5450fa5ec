[package]
name = "htfs"
version = "0.1.0"
edition = "2021"
publish = false

[dependencies]
url = "*"
ara = "*"
async-trait = "*"
futures = "*"
positioned-io = "*"
reqwest = { version = "*", default-features = false, features = ["stream"] }
tokio = { version = "*", features = ["rt"] }
