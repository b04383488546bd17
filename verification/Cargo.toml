[package]
name = "netbench"
version = "0.1.0"
edition = "2021"
publish = false

[dependencies]
clap = "=2.34.0"
ipnetwork = "=0.20.0"
lazy_static = "=1.5.1"
pnet = "=0.35.0"
