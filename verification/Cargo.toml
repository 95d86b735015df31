[package]
name = "sled_bridge"
version = "0.1.0"
edition = "2021"
publish = false

[dependencies]
sled = "0.34"
crossbeam-channel = "0.5"
rayon-core = "1"
num_cpus = "1"
