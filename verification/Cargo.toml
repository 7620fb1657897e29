[package]
name = "config_files"
version = "0.1.0"
edition = "2021"
publish = false

[dependencies]
directories = "4.0"
serde = "1.0"
toml = "0.5"
