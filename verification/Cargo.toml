[package]
name = "work_tools"
version = "0.1.0"
edition = "2021"
publish = false

[dependencies]
fancy-regex = "*"
anyhow = "1"
clap = { version = "4", features = ["derive"] }
ansi_term = "0.12"
chrono = "0.4"
ctrlc = "3"
hhmmss = "*"
