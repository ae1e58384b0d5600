[package]
name = "fti_notify"
version = "0.1.0"
edition = "2021"
publish = false

[dependencies]
anyhow = "1"
chrono = "0.4"
clap = { version = "4", features = ["derive"] }
minidom = "*"
notify-rust = "4"
ureq = { version = "2", default-features = false }
