[package]
name = "oscillator"
version = "0.1.0"
edition = "2021"
publish = false

[dependencies]
envelope = "*"
pitch_calc = "*"
rand = "*"
rand_distr = "*"
