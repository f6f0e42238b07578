[package]
name = "bridge_proofs"
version = "0.1.0"
edition = "2021"
publish = false

[dependencies]
parity-scale-codec = "3"
staging-xcm = "7"
sp-runtime = "31"
