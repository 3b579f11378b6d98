[package]
name = "tslink"
version = "0.1.0"
edition = "2021"
publish = false

[dependencies]
convert_case = "0.6"
uuid = { version = "1", features = ["v4"] }
syn = { version = "2", features = ["full", "extra-traits"] }
quote = "1"
proc-macro2 = "1"
proc-macro-error = "1"
toml = "0.8"
serde = { version = "1", features = ["derive"] }
serde_json = "1"
thiserror = "1"
lazy_static = "1"
