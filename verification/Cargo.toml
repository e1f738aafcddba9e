[package]
name = "fakeroost"
version = "0.1.0"
edition = "2021"
publish = false

[dependencies]
env_logger = "0.11"
libc = "0.2"
nix = { version = "0.30", features = ["fs", "process", "ptrace", "signal", "uio"] }
seccompiler = "0.5"
thiserror = "2"
