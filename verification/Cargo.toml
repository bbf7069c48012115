[package]
name = "fp_marshal"
version = "0.1.0"
edition = "2021"
publish = false

[dependencies]
cty = "0.2"

[dev-dependencies]
rustc_apfloat = "*"
