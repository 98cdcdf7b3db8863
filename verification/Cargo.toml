[package]
name = "cargo_sysroot"
version = "0.1.0"
edition = "2021"
publish = false

[dependencies]
anyhow = "1"
cargo-toml2 = "*"
fs_extra = "1"
serde = "1"
serde_derive = "1"
structopt = "0.3"
