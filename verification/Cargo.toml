[package]
name = "cargo_rhack"
version = "0.1.0"
edition = "2021"
publish = false

[dependencies]
toml_edit = "*"
serde_json = "*"
anyhow = "*"
home = "*"

[dependencies.clap]
version = "*"
features = ["derive"]
