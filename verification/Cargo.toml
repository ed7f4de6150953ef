[package]
name = "s3_put"
version = "0.1.0"
edition = "2021"
publish = false

[dependencies]
libc = "*"
nix = { version = "*", features = ["process"] }
rust-s3 = { version = "*", default-features = false, features = ["sync-rustls-tls"] }
