[package]
name = "advise"
version = "0.1.0"
edition = "2021"
publish = false

[dependencies]
anstyle = "*"
anstream = "*"
log = "*"
