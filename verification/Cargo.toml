[package]
name = "embystream"
version = "0.1.0"
edition = "2021"
publish = false

[dependencies]
serde = { version = "=1.0.229", features = ["derive"] }
serde_json = "=1.0.154"
toml = "=0.8.23"
form_urlencoded = "=1.2.2"
regex = "=1.13.1"
rand = "=0.8.8"
chrono = { version = "=0.4.45", default-features = false, features = ["clock"] }
clap = { version = "=4.6.7", features = ["derive"] }
dialoguer = "=0.11.0"
figlet-rs = "=0.1.5"
hyper = { version = "1", default-features = false }
