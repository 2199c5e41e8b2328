[package]
name = "sealed_bid_auction"
version = "0.1.0"
edition = "2021"
publish = false

[dependencies]
stylus-sdk = "*"
alloy-primitives = "*"
