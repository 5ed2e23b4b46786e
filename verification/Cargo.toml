[package]
name = "todos"
version = "0.1.0"
edition = "2021"
publish = false

[dependencies]
inquire = "*"
serde_json = "1"
