[package]
name = "pabst"
version = "0.1.0"
edition = "2021"

[dependencies]
docopt = "=0.6.86"
las = "=0.3.4"
rustc-serialize = "=0.3.25"
sdc = "=0.1.1"
toml = "=0.1.30"
