[package]
name = "spellbook"
version = "0.1.0"
edition = "2021"
publish = false

[dependencies]
clap = { version = "4", features = ["derive"] }
dirs = "*"
nix = { version = "*", features = ["signal", "process"] }
serde = { version = "1", features = ["derive"] }
serde_yaml = "*"
which = "*"
