[package]
name = "neovim_cmd"
version = "0.1.0"
edition = "2021"
publish = false

[dependencies]
clap = "=2.34.0"
neovim-lib = "=0.6.1"
env_logger = "=0.11.11"
log = "=0.4.34"
rmp = "=0.8.10"
