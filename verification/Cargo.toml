[package]
name = "deployment"
version = "0.1.0"
edition = "2021"
publish = false

[dependencies]
anyhow = "1"
ckb-testtool = "*"
log = "0.4"
