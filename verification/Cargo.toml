[package]
name = "gh_ghq_cd"
version = "0.1.0"
edition = "2021"
publish = false

[dependencies]
anyhow = "1"
clap = { version = "4", features = ["derive"] }
owo-colors = "4"
skim = "*"
termimad = "*"
which = "*"
