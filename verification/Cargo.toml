[package]
name = "http_adapter"
version = "0.1.0"
edition = "2021"
publish = false

[dependencies]
async-trait = "0.1"
http = "1"
http-body-util = "0.1"
reqwest = "0.12"
surf = "2.3"
ureq = "3"
