[package]
name = "cargo_wdk"
version = "0.1.0"
edition = "2021"
publish = false

[dependencies]
anyhow = "*"
clap = { version = "*", features = ["derive"] }
clap-verbosity-flag = "*"
thiserror = "*"
wdk-build = "*"
