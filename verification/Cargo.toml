[package]
name = "libretranslate"
version = "0.1.6"
edition = "2021"
publish = false

[dependencies]
serde_json = "1"
ureq = "2"
