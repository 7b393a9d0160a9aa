[package]
name = "compressor"
version = "0.1.0"
edition = "2021"
publish = false

[dependencies]
flate2 = "=1.1.10"
zstd = "=0.14.0"
lz4 = "=1.28.1"
zip = { version = "=8.6.0", default-features = false, features = ["deflate-flate2"] }
clap = { version = "=4.6.7", features = ["derive"] }
indicatif = "=0.18.6"
