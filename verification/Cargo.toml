[package]
name = "ofdm_demod"
version = "0.1.0"
edition = "2021"
publish = false

[dependencies]
clap = { version = "4", features = ["derive"] }
num = "0.4"
rustfft = "6"
