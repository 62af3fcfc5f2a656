[package]
name = "hashery"
version = "0.1.0"
edition = "2021"
publish = false

[dependencies]
blake2 = "*"
blake3 = "*"
digest = { version = "*", features = ["alloc"] }
md-5 = "*"
sha1 = "*"
sha2 = "*"
sha3 = "*"
tokio = { version = "*", features = ["fs", "io-util", "macros", "rt", "rt-multi-thread"] }
typed-builder = "*"
