[package]
name = "salvia"
version = "0.1.0"
edition = "2021"
publish = false

[dependencies]
bitvec = "1"
tokio = { version = "1", features = ["sync", "rt", "rt-multi-thread", "macros"] }
futures = "0.3"
parking_lot = "0.12"
anymap2 = "0.13"
async-trait = "0.1"
syn = { version = "1", features = ["full", "visit"] }
quote = "1"
proc-macro2 = "1"
