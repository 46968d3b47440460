[package]
name = "shell_supervisor"
version = "0.1.0"
edition = "2021"
publish = false

[dependencies]
command-group = "*"
dirs = "*"
hex = "0.4"
log = "0.4"
rand = "0.9"
serde = { version = "1", features = ["derive"] }
urlencoding = "2"
