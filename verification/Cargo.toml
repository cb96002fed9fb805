[package]
name = "algebraics"
version = "0.1.0"
edition = "2021"
publish = false

[dependencies]
num-bigint = "=0.4.8"
num-integer = "=0.1.47"
num-rational = "=0.4.2"
num-traits = "=0.2.19"
