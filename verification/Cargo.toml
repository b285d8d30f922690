[package]
name = "arzmq"
version = "0.1.0"
edition = "2021"
publish = false

[dependencies]
arzmq-sys = "*"
serde = { version = "1", features = ["derive"] }
thiserror = "*"
bitflags = "2"
