[package]
name = "pika_backup"
version = "0.1.0"
edition = "2021"
publish = false

[dependencies]
chrono = "0.4"
shell-words = "1"
url = "2"
gettext-rs = { version = "0.7", features = ["gettext-system"] }
itertools = "0.13"
arc-swap = "1"
