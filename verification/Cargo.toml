[package]
name = "tubular_bells"
version = "0.1.0"
edition = "2021"
publish = false

[dependencies]
anyhow = "1"
base64 = "=0.13.1"
bellman = "=0.2.0"
ff = "=0.5.0"
pairing = "=0.15.0"
rand = "=0.7.3"
sha2 = "=0.9.9"
structopt = "=0.3.26"
