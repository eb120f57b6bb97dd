[package]
name = "hashers"
version = "0.1.0"
edition = "2021"
publish = false

[dependencies]
blake2b_simd = { version = "0.5.10", default-features = false }
blake2s_simd = { version = "0.5.10", default-features = false }
digest = { version = "0.9.0", default-features = false }
generic-array = "0.14.4"
sha-1 = { version = "0.9.1", default-features = false }
sha2 = { version = "0.9.0", default-features = false }
sha3 = { version = "0.9.0", default-features = false }
strobe-rs = "0.5.4"
