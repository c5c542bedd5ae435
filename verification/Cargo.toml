[package]
name = "eyece"
version = "0.1.0"
edition = "2021"
publish = false

[dependencies]
eye = "=0.2.0"
ffimage = "=0.7.1"
iced = { version = "=0.2.0", features = ["image", "tokio"] }
