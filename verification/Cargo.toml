[package]
name = "ssh_bridge"
version = "0.1.0"
edition = "2021"
publish = false

[dependencies]
termwiz = "*"
anyhow = "*"
filedescriptor = "*"
portable-pty = "*"
log = "*"
