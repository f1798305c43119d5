[package]
name = "todo_threader"
version = "0.1.0"
edition = "2021"
publish = false

[dependencies]
clap = { version = "3", default-features = false, features = ["std"] }
env_logger = { version = "0.9", default-features = false }
log = "0.4"
rand = "0.8"
serialport = { version = "4", default-features = false }
