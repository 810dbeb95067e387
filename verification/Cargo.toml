[package]
name = "temp_dir_builder"
version = "0.1.0"
edition = "2021"
publish = false

[dependencies]
path-clean = "*"
rand = "*"
dunce = "*"
thiserror = "*"
