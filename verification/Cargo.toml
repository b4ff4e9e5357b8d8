[package]
name = "pixtend"
version = "0.1.0"
edition = "2021"
publish = false

[dependencies]
rppal = "*"
thiserror = "*"

[dev-dependencies]
deku = "*"
