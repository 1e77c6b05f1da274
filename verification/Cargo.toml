[package]
name = "irctext"
version = "0.1.0"
edition = "2021"
publish = false

[dependencies]
url = "2"
anstyle = "1"
