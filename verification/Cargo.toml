[package]
name = "hwatch"
version = "0.1.0"
edition = "2021"
publish = false

[dependencies]
clap = "2"
ncurses = "5"
nix = { version = "*", features = ["signal"] }
tui = { version = "0.19", default-features = false }
