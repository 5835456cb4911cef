[package]
name = "jendeley-search"
version = "0.1.0"
edition = "2021"
publish = false

[dependencies]
getopts = "0.2"
pdf-extract = "*"
serde_json = { version = "1", features = ["preserve_order"] }
