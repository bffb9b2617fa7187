[package]
name = "committed_fee"
version = "0.1.0"
edition = "2021"
publish = false

[dependencies]
blockifier = { version = "=0.16.0-rc.4", default-features = false }
log = "0.4"
num-traits = "=0.2.19"
starknet-core = "=0.16.0"
starknet_api = "=0.16.0-rc.4"
starknet-types-core = "=0.2.4"

# Versions that the execution crates above are built with.
cairo-lang-casm = "=2.12.4"
cairo-lang-runner = "=2.12.4"
cairo-lang-starknet-classes = "=2.12.4"
cairo-lang-utils = "=2.12.4"
const_format = "=0.2.35"
flate2 = "=1.1.5"
good_lp = { version = "=1.14.2", default-features = false }
idna_adapter = "=1.0.0"
indexmap = "=2.10.0"
proc-macro-crate = "=3.3.0"
serde_json = "=1.0.145"
serde_with = "=3.15.1"
signal-hook-registry = "=1.4.6"
