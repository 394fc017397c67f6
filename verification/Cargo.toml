[package]
name = "rollup_recovery"
version = "0.1.0"
edition = "2021"
publish = false

[dependencies]
web3 = { version = "*", default-features = false }
num = "*"
hex = "*"
anyhow = "*"
thiserror = "*"
serde = { version = "*", features = ["derive"] }
serde_json = "*"
structopt = "*"
tokio = { version = "*", features = ["rt", "macros", "time"] }
async-trait = "*"
chrono = "*"
metrics = "*"
