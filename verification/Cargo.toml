[package]
name = "bladvak"
version = "0.1.0"
edition = "2021"
publish = false

[dependencies]
serde = { version = "=1.0.229", features = ["derive"] }
poll-promise = "=0.3.0"
rfd = { version = "=0.17.2", default-features = false, features = ["xdg-portal"] }
