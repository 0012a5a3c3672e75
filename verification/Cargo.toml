[package]
name = "pushwasm"
version = "0.1.0"
edition = "2021"
publish = false

[dependencies]
anyhow = "=1.0.104"
base64 = "=0.23.1"
clap = { version = "=4.6.7", features = ["derive"] }
mysql = { version = "=28.0.3", default-features = false, features = ["minimal-rust"] }
rpassword = "=7.5.4"
url = "=2.5.8"
