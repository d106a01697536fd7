[package]
name = "krunvm"
version = "0.2.0"
edition = "2021"
publish = false

[dependencies]
clap = { version = "*", features = ["derive"] }
confy = "*"
libc = "*"
serde = "*"
serde_derive = "*"
text_io = "*"
