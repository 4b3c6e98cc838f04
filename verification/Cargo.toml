[package]
name = "iced_anim"
version = "0.1.0"
edition = "2021"
publish = false

[dependencies]
syntect = { version = "=5.3.0", default-features = false, features = ["default-themes", "default-syntaxes", "parsing", "regex-fancy"] }
