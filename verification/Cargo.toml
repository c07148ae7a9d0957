[package]
name = "niffler"
version = "0.1.0"
edition = "2021"
publish = false

[dependencies]
flate2 = "1"
bzip2 = "0.4"
xz2 = { version = "0.1", features = ["static"] }
