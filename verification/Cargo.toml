[package]
name = "isis_eps_service"
version = "0.1.0"
edition = "2021"
publish = false

[dependencies]
failure = "*"
juniper = "*"
log = "*"
serde = "*"
