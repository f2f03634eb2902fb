[package]
name = "settings_store"
version = "0.1.0"
edition = "2021"
publish = false

[dependencies]
base32 = "0.5"
cron = "*"
uuid = "*"
