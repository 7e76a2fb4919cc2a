[package]
name = "rsh"
version = "0.1.0"
edition = "2021"
publish = false

[dependencies]
colored = "=2.2.0"
crossterm = "=0.29.0"
nix = { version = "=0.30.1", features = ["process"] }
textwrap = "=0.16.4"
tokio = { version = "=1.54.1", features = ["full"] }

[dev-dependencies]
regex = "1"
