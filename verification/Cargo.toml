[package]
name = "physics_instruments"
version = "0.1.0"
edition = "2021"
publish = false

[dependencies]
hound = "=3.5.1"
realfft = "=3.5.1"
num-complex = "=0.4.6"
clap-sys = "=0.5.0"
