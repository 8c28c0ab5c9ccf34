[package]
name = "nakama_rs"
version = "0.1.0"
edition = "2021"
publish = false

[dependencies]
oneshot = "0.1"
base64 = "0.13"
nanoserde = "0.1"
async-trait = "0.1"
futures = "0.3"
log = "0.4"
isahc = "1"
qws = "0.7"
