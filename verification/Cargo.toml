[package]
name = "content"
version = "0.1.0"
edition = "2021"
publish = false

[dependencies]
slug = "0.1"
toml = "0.8"
serde = "1"
tera = { version = "1", default-features = false }
pulldown-cmark = "0.9"
