[package]
name = "alma"
version = "0.1.0"
edition = "2021"
publish = false

[dependencies]
anyhow = "1"
byte-unit = "4.0"
structopt = "0.3"
