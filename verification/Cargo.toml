[package]
name = "syssonic"
version = "0.1.0"
edition = "2021"
publish = false

[dependencies]
anyhow = "*"
battery = "*"
clap = { version = "*", features = ["derive"] }
crossbeam-channel = "*"
directories = "*"
libmedium = "*"
nvml-wrapper = "*"
serde = { version = "*", features = ["derive"] }
sysinfo = "*"
toml = "*"
