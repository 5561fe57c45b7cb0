[package]
name = "ec_group"
version = "0.1.0"
edition = "2021"
publish = false

[dependencies]
num-bigint = "0.4"
num-traits = "0.2"
num-integer = "0.1"
ark-bls12-381 = "*"
ark-ec = "*"
ark-ff = "*"
ark-std = "*"
