[package]
name = "phrasey"
version = "0.1.0"
edition = "2021"
publish = false

[dependencies]
anyhow = "*"
chrono = "*"
clap = { version = "*", features = ["derive"] }
config = "*"
crossterm = "*"
csv = "*"
fern = "*"
log = "*"
rand = "*"
serde = { version = "*", features = ["derive"] }
