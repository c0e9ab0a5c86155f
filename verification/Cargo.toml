[package]
name = "erika_3004"
version = "0.1.0"
edition = "2021"
publish = false

[dependencies]
clap = "=3.2.25"
nix = "=0.10.0"
serial = "=0.4.0"
uinput = { version = "=0.1.3", default-features = false }
