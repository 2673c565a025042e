[package]
name = "ord_render"
version = "0.1.0"
edition = "2021"
publish = false

[dependencies]
bitcoin = "=0.32.102"
brotli = "=8.0.4"
chrono = { version = "*", default-features = false, features = ["alloc"] }
ciborium = "=0.2.2"
mp4 = "=0.14.0"
sha3 = "*"

[dev-dependencies]
regex = "=1.13.1"
unindent = "=0.2.4"
