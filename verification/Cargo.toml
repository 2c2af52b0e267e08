[package]
name = "wallet_core"
version = "0.1.0"
edition = "2021"
publish = false

[dependencies]
candid = "=0.10.37"
ic-cdk = "=0.19.0"
ic-ledger-types = "=0.16.0"
serde = "*"
