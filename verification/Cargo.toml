[package]
name = "i18n_format"
version = "0.1.0"
edition = "2021"
publish = false

[dependencies]
icu = { version = "=1.5.0", features = ["compiled_data", "sync"] }
proc-macro2 = "1"
