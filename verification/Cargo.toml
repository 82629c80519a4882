[package]
name = "pty_exec"
version = "0.1.0"
edition = "2021"
publish = false

[dependencies]
signal-hook = "0.3"
libc = "0.2"
