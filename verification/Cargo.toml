[package]
name = "nixpkgs_check_by_name"
version = "0.1.0"
edition = "2021"
publish = false

[dependencies]
indoc = "2"
relative-path = "1"
textwrap = { version = "0.16", default-features = false }
