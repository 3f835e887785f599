[package]
name = "papm"
version = "0.1.0"
edition = "2021"
publish = false

[dependencies]
argon2 = "=0.5.3"
password-hash = { version = "=0.5.0", features = ["getrandom"] }
clap = { version = "=4.6.7", features = ["derive"] }
