[package]
name = "bend_package"
version = "0.1.0"
edition = "2021"
publish = false

[dependencies]
clap = { version = "4", features = ["derive"] }
git2 = "*"
semver = "1"
toml_edit = "0.22"
