[package]
name = "rustls_rustcrypto"
version = "0.1.0"
edition = "2021"
publish = false

[dependencies]
rustls = { version = "0.23", default-features = false, features = ["std"] }
rustls-pki-types = "1"
signature = { version = "2", features = ["std", "rand_core"] }
rand_core = { version = "0.6", features = ["std"] }
rsa = { version = "0.9", features = ["sha2"] }
sha2 = "0.10"
elliptic-curve = { version = "0.13", features = ["std", "sec1", "pkcs8"] }
p256 = { version = "0.13", features = ["ecdsa", "pkcs8"] }
p384 = { version = "0.13", features = ["ecdsa", "pkcs8"] }
ed25519-dalek = { version = "2", features = ["pkcs8"] }
