[package]
name = "set_version"
version = "0.1.0"
edition = "2021"
publish = false

[dependencies]
cargo-edit = { version = "=0.11.3", default-features = false, features = ["set-version"] }
clap = { version = "4", features = ["derive"] }
dunce = "=1.0.5"
kstring = "=2.0.0"
semver = "=1.0.28"
toml_edit = "=0.14.4"
