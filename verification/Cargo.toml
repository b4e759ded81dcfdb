[package]
name = "endolium"
version = "0.1.0"
edition = "2021"
publish = false

[dependencies]
anchor-lang = "=0.31.2"
base64 = "=0.21.7"
chacha20 = "=0.9.1"
hex = "=0.4.3"
hmac = "=0.12.1"
rand = "=0.8.8"
sha2 = "=0.10.9"
