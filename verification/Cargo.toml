[package]
name = "exec_core"
version = "0.1.0"
edition = "2021"
publish = false

[dependencies]
indexmap = "=2.14.2"
serde_json = "=1.0.151"
url = "*"
