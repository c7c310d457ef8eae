[package]
name = "papercoat"
version = "0.1.0"
edition = "2021"
publish = false

[dependencies]
anyhow = "1"
clap = { version = "4", features = ["derive"] }
console = "*"
crossterm = "*"
directories = "*"
indicatif = "*"
lopdf = "*"
pdf-extract = "*"
ratatui = "*"
serde = { version = "1", features = ["derive"] }
serde_json = "1"
