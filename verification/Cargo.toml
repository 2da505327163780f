[package]
name = "observable_maps"
version = "0.1.0"
edition = "2021"
publish = false

[dependencies]
rust_decimal = "1"
rust_decimal_macros = "1"

[dev-dependencies]
num = "0.4"
