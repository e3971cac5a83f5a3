[package]
name = "vanity_miner"
version = "0.1.0"
edition = "2021"
publish = false

[dependencies]
bip0039 = "*"
eip55 = "*"
hex = "*"
libsecp256k1 = "*"
regex = "*"
tiny-hderive = "*"
tiny-keccak = { version = "*", features = ["keccak"] }
clap = { version = "*", features = ["derive"] }
num_cpus = "*"
