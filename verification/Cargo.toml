[package]
name = "tokio_file_unix"
version = "0.1.0"
edition = "2021"
publish = false

[dependencies]
libc = "0.2"
mio = "=0.6.23"
nix = "0.26"
tokio = { version = "1", features = ["net", "rt", "io-util", "time"] }
