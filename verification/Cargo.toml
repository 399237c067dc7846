[package]
name = "elm_watch"
version = "0.1.0"
edition = "2021"
publish = false

[dependencies]
clap = { version = "4", features = ["derive"] }
crossterm = "*"
env_logger = "*"
log = "0.4"
notify = "*"
notify-debouncer-full = "*"
