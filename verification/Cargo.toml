[package]
name = "kantocurses"
version = "0.1.0"
edition = "2021"
publish = false

[dependencies]
strip-ansi-escapes = "=0.2.1"
tokio = { version = "=1.53.2", features = ["sync", "fs", "net", "rt-multi-thread", "macros"] }
cursive = "=0.21.1"
cursive_table_view = "=0.15.0"
clap = { version = "=4.6.7", features = ["derive"] }
nix = { version = "=0.31.3", features = ["user"] }
