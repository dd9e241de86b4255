[package]
name = "hutao_installer"
version = "0.1.0"
edition = "2021"
publish = false

[dependencies]
num_cpus = "*"
chksum-md5 = "*"
chksum-sha2-256 = "*"
flate2 = "*"
reqwest = { version = "*", default-features = false, features = ["stream"] }
tokio = { version = "*", features = ["fs", "io-util", "rt-multi-thread", "time", "sync", "macros"] }
tokio-util = { version = "*", features = ["io"] }
futures = "*"
anyhow = "*"
clap = { version = "*", features = ["derive"] }
serde = { version = "*", features = ["derive"] }
serde_json = "*"
