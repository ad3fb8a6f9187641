[package]
name = "tar_bench"
version = "0.1.0"
edition = "2021"
publish = false

[dependencies]
chrono = "0.4"
flate2 = "1"
tar = "0.4"
