[package]
name = "remote_audio"
version = "0.1.0"
edition = "2021"
publish = false

[dependencies]
ringbuf = "0.3"
anyhow = "1"
bincode = "1"
clap = { version = "4", features = ["derive"] }
cpal = "0.15"
