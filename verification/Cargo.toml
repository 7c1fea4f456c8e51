[package]
name = "ipfs_chat"
version = "0.1.0"
edition = "2021"
publish = false

[dependencies]
gtk = "=0.4.1"
ipfsapi = "=0.3.0"
