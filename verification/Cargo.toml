[package]
name = "zed_sops"
version = "0.1.0"
edition = "2021"
publish = false

[dependencies]
anyhow = "1"
notify = "*"
once_cell = "1"
which = "*"
zed_extension_api = "*"
