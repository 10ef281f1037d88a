[package]
name = "scrolls"
version = "0.1.0"
edition = "2021"
publish = false

[dependencies]
anyhow = "*"
clap = { version = "*", features = ["derive"] }
clap-cargo = "*"
clap_complete = "*"
termsize = "*"
