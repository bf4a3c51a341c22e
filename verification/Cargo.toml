[package]
name = "versionfs"
version = "0.1.0"
edition = "2021"
publish = false

[dependencies]
fuser = "*"
clap = { version = "*", features = ["cargo"] }
ctrlc = "*"
env_logger = "*"
log = "*"
libc = "*"
