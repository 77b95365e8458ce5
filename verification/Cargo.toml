[package]
name = "prefer"
version = "0.1.0"
edition = "2021"
publish = false

[dependencies]
async-trait = "*"
dirs = "*"
inventory = "*"
json5 = "*"
jzon = "*"
notify = "*"
roxmltree = "*"
thiserror = "*"
tokio = { version = "*", features = ["fs", "sync", "rt", "macros", "time"] }
toml_edit = "*"
url = "*"
yaml-rust2 = "*"
