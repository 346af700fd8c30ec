[package]
name = "transitfeed"
version = "0.1.0"
edition = "2021"
publish = false

[dependencies]
csv = "1"
zip = { version = "*", default-features = false, features = ["deflate"] }
tempfile = "3"
