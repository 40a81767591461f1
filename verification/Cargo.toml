[package]
name = "setwlkbmap"
version = "0.1.0"
edition = "2021"
publish = false

[dependencies]
regex = "1"
clap = { version = "4", features = ["derive"] }
detect-desktop-environment = "1"
