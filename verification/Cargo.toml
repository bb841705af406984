[package]
name = "babylonia_terminal_sdk"
version = "0.1.0"
edition = "2021"
publish = false

[dependencies]
chksum-md5 = "*"
serde = { version = "*", features = ["derive"] }
serde_json = "*"
downloader = "*"
flate2 = "*"
tar = "*"
xz2 = "*"
dirs = "*"
num_cpus = "*"
wincompatlib = "*"
reqwest = { version = "*", default-features = false, features = ["blocking"] }
