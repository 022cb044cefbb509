[package]
name = "shell_todo"
version = "0.1.0"
edition = "2021"
publish = false

[dependencies]
clap = { version = "*", features = ["derive"] }
colored = "*"
dirs = "*"
serde = { version = "*", features = ["derive"] }
serde_json = "*"
tabled = { version = "*", default-features = false, features = ["std", "ansi"] }
