[package]
name = "silentberry"
version = "0.1.0"
edition = "2021"
publish = false

[dependencies]
blake2b-ref = "=0.3.1"
sparse-merkle-tree = { version = "=0.6.1", default-features = false }
molecule = { version = "=0.9.2", default-features = false }
ckb-std = { version = "=1.1.0", default-features = false, features = ["ckb-types", "type-id", "log"] }
num_enum = { version = "=0.7.6", default-features = false }
