[package]
name = "zephyrus"
version = "0.1.0"
edition = "2021"
publish = false

[dependencies]
parking_lot = "0.12"
tracing = "0.1"
syn = { version = "1", features = ["full", "extra-traits"] }
quote = "1"
proc-macro2 = "1"
twilight-model = "0.13"
twilight-http = { version = "0.13", default-features = false }
