[package]
name = "nethex"
version = "0.1.0"
edition = "2021"
publish = false

[dependencies]
crossbeam = "*"
env_logger = "*"
hex = "0.4"
hexplay = "*"
indicatif = "*"
log = "0.4"
pnet = "*"
regex = "1"
structopt = "0.3"
