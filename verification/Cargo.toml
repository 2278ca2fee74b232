[package]
name = "priority_ledger"
version = "0.1.0"
edition = "2021"
publish = false

[dependencies]
ethabi = "*"
web3 = { version = "*", default-features = false, features = ["http"] }
async-trait = "*"
anyhow = "*"
