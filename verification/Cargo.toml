[package]
name = "lnd"
version = "0.1.0"
edition = "2021"
publish = false

[dependencies]
bitcoind = "0.34"
hex = "=0.4.3"
log = "0.4"
nix = "0.25"
serde_json = "=1.0.154"
tokio = { version = "1", features = ["time"] }
tonic_lnd = "=0.5.1"
which = "4"
