[package]
name = "framework_natives"
version = "0.1.0"
edition = "2021"
publish = false

[dependencies]
curve25519-dalek = "=3.2.1"
sha2 = "=0.9.9"
smallvec = "1"
