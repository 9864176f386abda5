[package]
name = "elkridge"
version = "0.1.0"
edition = "2021"
publish = false

[dependencies]
rusqlite = { version = "*", features = ["bundled"] }
fuse = "0.3"
clap = "*"
libc = "*"
time = "0.1"
