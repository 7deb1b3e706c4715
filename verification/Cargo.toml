[package]
name = "invil"
version = "0.2.21"
edition = "2021"
publish = false

[dependencies]
regex = "1"
toml = "0.8"
url = "2"
clap = { version = "4", features = ["derive"] }
dirs = "5"
git2 = { version = "0.19", default-features = false }
is_executable = "1"
log = "0.4"
simplelog = "0.12"
