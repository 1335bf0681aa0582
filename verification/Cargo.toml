[package]
name = "yubikey"
version = "0.1.0"
edition = "2021"
publish = false

[dependencies]
der = "=0.7.10"
rsa = "=0.9.10"
signature = "=2.2.0"
spki = "=0.7.3"
x509-cert = { version = "=0.2.5", features = ["builder"] }
sha2 = "=0.10.9"

[dev-dependencies]
rand = "=0.8.8"
p256 = "=0.13.2"
