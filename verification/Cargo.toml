[package]
name = "gaymacs"
version = "0.1.0"
edition = "2021"
publish = false

[dependencies]
console = "0.15"
num = "0.4"
