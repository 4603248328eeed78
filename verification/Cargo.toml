[package]
name = "spawn_bench"
version = "0.1.0"
edition = "2021"
publish = false

[dependencies]
async-std = "*"
bastion-executor = "*"
env_logger = "*"
futures = "*"
lightproc = "*"
