[package]
name = "runes_index"
version = "0.1.0"
edition = "2021"
publish = false

[dependencies]
ordinals = "*"
bitcoin = "*"
tokio = { version = "*", features = ["rt"] }
tokio-postgres = "*"
