[package]
name = "arrow_odbc"
version = "0.1.0"
edition = "2021"
publish = false

[dependencies]
arrow = "*"
odbc-api = "*"
thiserror = "*"
