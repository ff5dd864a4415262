[package]
name = "cargo-credential-netrc"
version = "0.1.0"
edition = "2021"
publish = false

[dependencies]
cargo-credential = "=0.4.11"
clap = { version = "=4.6.7", features = ["derive"] }
rust-netrc = "=0.1.2"
time = "=0.3.55"
url = "=2.5.8"

[dev-dependencies]
handlebars = "=6.4.4"
