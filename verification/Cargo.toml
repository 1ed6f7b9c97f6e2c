[package]
name = "gophers"
version = "0.1.0"
edition = "2021"
publish = false

[dependencies]
url = "2"
native-tls = "0.2"
