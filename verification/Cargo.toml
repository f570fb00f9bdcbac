[package]
name = "raft_peer"
version = "0.1.0"
edition = "2021"
publish = false

[dependencies]
rand = "*"
log = "*"
futures = "*"
async-std = "*"
async-trait = "*"
