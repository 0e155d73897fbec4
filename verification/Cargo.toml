[package]
name = "cpp_to_rust"
version = "0.1.0"
edition = "2021"
publish = false

[dependencies]
toml = "*"
serde_json = "*"
num_cpus = "*"
log = "*"
