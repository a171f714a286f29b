[package]
name = "pet_cli"
version = "0.1.0"
edition = "2021"
publish = false

[dependencies]
rand = "0.8"
chrono = "0.4"
crossterm = "0.25"
tui = { version = "0.19", default-features = false, features = ["crossterm"] }
