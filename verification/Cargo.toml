[package]
name = "lyrebird"
version = "0.1.0"
edition = "2021"
publish = false

[dependencies]
time = { version = "*", features = ["formatting"] }
libc = "*"
clap = { version = "*", features = ["derive"] }

[dev-dependencies]
serde_json = "*"
