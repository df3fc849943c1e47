[package]
name = "watchso"
version = "0.1.0"
edition = "2021"
publish = false

[dependencies]
async-recursion = "1"
async-trait = "0.1"
cargo_toml = "0.15"
console = "0.15"
globset = "0.4"
indicatif = "0.17"
lazy_static = "1"
miette = { version = "5", features = ["fancy"] }
regex = "1"
thiserror = "1"
tokio = { version = "1", features = ["full"] }
toml = "0.7"
watchexec = "2"
watchexec-filterer-globset = "1"
