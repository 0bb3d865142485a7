[package]
name = "talist"
version = "0.1.0"
edition = "2021"
publish = false

[dependencies]
chrono = "0.4"
crossterm = "0.25"
rusqlite = { version = "*", features = ["bundled"] }
tui = { version = "0.19", default-features = false, features = ["crossterm"] }
