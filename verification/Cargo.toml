[package]
name = "varnish_guest"
version = "0.1.0"
edition = "2021"
publish = false

[dependencies]
base64 = "*"
common-access-token = "*"
