[package]
name = "huus"
version = "0.1.0"
edition = "2021"
publish = false

[dependencies]
bson = "0.14"
chrono = "0.4"
proc-macro2 = "1"
lazy_static = "1"
askama = "0.9"
mongo_driver = "*"
