[package]
name = "rwa_registry"
version = "0.1.0"
edition = "2021"
publish = false

[dependencies]
pinocchio = "=0.9.3"
pinocchio-pubkey = "=0.3.0"
pinocchio-log = "=0.5.1"
pinocchio-system = "0.3"
pinocchio-token-2022 = "0.1"
pinocchio-associated-token-account = "0.2"
num-derive = "=0.4.2"
num-traits = "=0.2.19"
shank = "=0.4.9"
thiserror-no-std = "=2.0.2"
