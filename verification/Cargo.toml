[package]
name = "extrinsic_bench"
version = "0.1.0"
edition = "2021"
publish = false

[dependencies]
parity-scale-codec = "3"
schnorrkel = "0.11"
bs58 = "0.5"
blake2 = "0.10"
rand = "0.8"
