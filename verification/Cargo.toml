[package]
name = "noise_explorer"
version = "0.1.0"
edition = "2021"
publish = false

[dependencies]
itertools = "0.13"
noise = "0.9"
rand = "0.8"
svg = "*"
chrono = "0.4"
log = "0.4"
env_logger = "*"
dotenv = "0.15"
macroquad = "0.4"
