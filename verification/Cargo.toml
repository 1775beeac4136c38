[package]
name = "rugit"
version = "0.1.0"
edition = "2021"
publish = false

[dependencies]
chrono = "0.4"
crossterm = "0.25"
git2 = { version = "0.18", default-features = false }
tui = "0.19"
