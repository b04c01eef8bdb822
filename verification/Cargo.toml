[package]
name = "easy-template"
version = "0.1.0"
edition = "2021"
publish = false

[dependencies]
dirs = "5"
