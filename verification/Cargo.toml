[package]
name = "mtp_rs"
version = "0.1.0"
edition = "2021"
publish = false

[dependencies]
bytes = "1"
futures = "0.3"
async-trait = "0.1"
thiserror = "2"
nusb = "0.2"
