[package]
name = "projkt"
version = "0.1.0"
edition = "2021"
publish = false

[dependencies]
dirs = "*"
serde_json = "*"
skim = "*"
spdx = { version = "*", features = ["text"] }
ureq = "*"
