[package]
name = "zk_wordle"
version = "0.1.0"
edition = "2021"
publish = false

[dependencies]
spartan = { version = "=0.9.0", features = ["multicore"] }
curve25519-dalek = "=4.1.3"
merlin = "=3.0.0"
bincode = "=1.3.3"
rand = "=0.8.8"
