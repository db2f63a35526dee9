[package]
name = "folder_lock"
version = "0.1.0"
edition = "2021"
publish = false

[dependencies]
age = "*"
anyhow = "*"
clap = { version = "*", features = ["derive"] }
flate2 = "*"
rpassword = "*"
tar = "*"
