[package]
name = "buy_me_a_coffee"
version = "0.1.0"
edition = "2021"
publish = false

[dependencies]
serde_json = "*"
thiserror = "*"

[dependencies.reqwest]
version = "*"
default-features = false
features = ["json"]
