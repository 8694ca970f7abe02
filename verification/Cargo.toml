[package]
name = "little_mad_trials"
version = "0.1.0"
edition = "2021"
publish = false

[dependencies]
fastrand = "*"
