[package]
name = "gitdash"
version = "0.1.0"
edition = "2021"
publish = false

[dependencies]
anyhow = "1"
chrono = "0.4"
crossbeam = "0.8"
crossterm = "0.25"
fuzzy-matcher = "0.3"
git2 = "0.18"
num-traits = "0.2"
regex = "1"
tui = "0.19"
