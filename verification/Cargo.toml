[package]
name = "seal_lifecycle"
version = "0.1.0"
edition = "2021"
publish = false

[dependencies]
anyhow = "1"
blstrs = "0.7"
clap = "2"
ff = "0.13"
fil_logger = "*"
filecoin-proofs = { version = "*", default-features = false }
rand = "0.8"
rand_xorshift = "0.3"
storage-proofs-core = { version = "*", default-features = false }
tempfile = "3"
