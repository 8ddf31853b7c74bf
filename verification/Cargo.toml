[package]
name = "native_erc20"
version = "0.1.0"
edition = "2021"
publish = false

[dependencies]
alloy-primitives = "=1.7.3"
alloy-sol-types = "=1.7.3"
revm = { version = "=38.0.0", default-features = false }
op-revm = { version = "=20.0.0", default-features = false }
alloy-consensus = { version = "=2.5.0", default-features = false }
alloy-eips = { version = "=2.5.0", default-features = false }
alloy-op-hardforks = "=0.5.0"
op-alloy-consensus = { version = "=2.0.0", default-features = false }
op-alloy-rpc-types-engine = { version = "=2.0.0", default-features = false }
