[package]
name = "account_info"
version = "0.1.0"
edition = "2021"
publish = false

[dependencies]
regex = "1"
casper-types = "4"
casper-contract = { version = "4", default-features = false }
