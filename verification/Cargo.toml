[package]
name = "pager"
version = "0.1.0"
edition = "2021"
publish = false

[dependencies]
ansi-to-tui = "*"
anyhow = "*"
bytecount = "*"
clap = { version = "*", features = ["derive"] }
ratatui = "*"
