[package]
name = "aurora"
version = "0.1.0"
edition = "2021"
publish = false

[dependencies]
anyhow = "1"
atty = "0.2"
confy = "*"
convey = "*"
serde = "1"
serde_derive = "1"
serde_json = "1"
stellar-base = "*"
stellar-horizon = "*"
structopt = "0.3"
tokio = { version = "1", features = ["rt-multi-thread", "macros"] }
tokio-stream = "0.1"
url = "2"
