[package]
name = "napi-ohos-uniffi-engine"
version = "0.1.0"
edition = "2021"
publish = false

[dependencies]
anyhow = "=1.0.104"
convert_case = "=0.11.0"
napi-ohos = { version = "=1.2.0", features = ["napi6"] }
proc-macro2 = { version = "=1.0.107", default-features = false }
quote = { version = "=1.0.47", default-features = false }
syn = { version = "=2.0.119", default-features = false, features = ["clone-impls", "derive", "extra-traits", "full", "parsing", "printing"] }
