[package]
name = "tea"
version = "0.1.0"
edition = "2021"
publish = false

[dependencies]
dioxus = { version = "=0.7.10", default-features = false, features = ["hooks", "signals"] }
futures-util = "=0.3.34"
