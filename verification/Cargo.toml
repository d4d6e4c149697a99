[package]
name = "tarx"
version = "0.1.0"
edition = "2021"
publish = false

[dependencies]
anyhow = "1"
clap = { version = "4", features = ["derive"] }
dlmalloc = { version = "0.2", features = ["global"] }
flate2 = "1"
lzma-rs = "0.3"
nameof = "1"
sevenz-rust = { version = "0.6", features = ["aes256"] }
tar = "0.4"
tracing = "0.1"
tracing-subscriber = "0.3"
zip = { version = "2", default-features = false, features = ["deflate", "aes-crypto"] }
