[package]
name = "rw_parser"
version = "0.1.0"
edition = "2021"
publish = false

[dependencies]
texpresso = "*"
serde = { version = "1", features = ["derive"] }
