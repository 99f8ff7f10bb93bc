[package]
name = "twsearch"
version = "0.1.0"
edition = "2021"
publish = false

[dependencies]
cubing = "*"
sha2 = "0.10"
hex = "0.4"
ascii = "1"
url = "2"
num-integer = "0.1"
rand = "0.9"
rand_core = "0.9"
serde_json = "1"
lazy_static = "1"
