[package]
name = "obs_lenkeng"
version = "0.1.0"
edition = "2021"
publish = false

[dependencies]
net2 = "0.2"
worker-sentinel = "*"
