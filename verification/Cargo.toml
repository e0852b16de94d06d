[package]
name = "native_api_1c_core"
version = "0.1.0"
edition = "2021"
publish = false

[dependencies]
widestring = "1"
syn = { version = "2", features = ["full"] }
quote = "1"
proc-macro2 = "1"
darling = "0.20"
