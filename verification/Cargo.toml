[package]
name = "juno"
version = "0.1.0"
edition = "2021"
publish = false

[dependencies]
serde_json = "1"
async-std = "1"
async-trait = "0.1"
futures = "0.3"
futures-util = "0.3"
