[package]
name = "cleanweb"
version = "0.1.0"
edition = "2021"
publish = false

[dependencies]
url = "*"
regex = "*"
csv = "*"
directories = "*"
