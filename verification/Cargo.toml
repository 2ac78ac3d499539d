[package]
name = "mini_runtime"
version = "0.1.0"
edition = "2021"
publish = false

[dependencies]
slab = "0.4"
mio = { version = "1", features = ["os-poll", "net"] }
futures = "0.3"
async-lock = "3"
rustls = { version = "0.23", default-features = false, features = ["ring", "std", "tls12"] }
rustls-pki-types = "1"
webpki-roots = "0.26"
