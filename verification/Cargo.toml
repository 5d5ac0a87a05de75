[package]
name = "rusty_anvil"
version = "0.1.0"
edition = "2021"
publish = false

[dependencies]
crab_nbt = "=0.2.11"
flate2 = "=1.1.10"
lz4 = "=1.28.1"
bytes = "=1.12.1"
crossbeam-utils = "*"
