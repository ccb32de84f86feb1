[package]
name = "ilquentir"
version = "0.1.0"
edition = "2021"
publish = false

[dependencies]
time = "0.3"
stable-hash = "0.4"
