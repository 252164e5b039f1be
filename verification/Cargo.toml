[package]
name = "insert_text"
version = "0.1.0"
edition = "2021"
publish = false

[dependencies]
arboard = "3"
enigo = "*"
core-graphics = "*"
napi = "2"
napi-derive = "2"
