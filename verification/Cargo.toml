[package]
name = "sparsemap"
version = "0.1.0"
edition = "2021"
publish = false

[dependencies]
rustix = { version = "*", features = ["fs"] }
libc = "*"
linux-raw-sys = { version = "*", features = ["ioctl"] }
anyhow = "*"
