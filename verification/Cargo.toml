[package]
name = "meshcode_loader"
version = "0.1.0"
edition = "2021"
publish = false

[dependencies]
jismesh = "*"
num_cpus = "*"
tokio = { version = "*", features = ["rt-multi-thread", "macros", "sync", "time"] }
async-channel = "*"
anyhow = "*"
clap = { version = "*", features = ["derive"] }
deadpool-postgres = "*"
tokio-postgres = "*"
futures-util = "*"
indicatif = "*"
ndarray = "*"
url = "*"
km-to-sql = "*"
