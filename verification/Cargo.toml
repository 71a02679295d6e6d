[package]
name = "sa_parser"
version = "0.1.0"
edition = "2021"
publish = false

[dependencies]
clap = "*"
serde = "*"
serde_derive = "*"
serde_json = "*"
