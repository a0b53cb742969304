[package]
name = "wgsl_bindgen"
version = "0.1.0"
edition = "2021"
publish = false

[dependencies]
heck = "=0.5.0"
regex = "=1.13.1"
indexmap = "=2.14.2"
fxhash = "=0.2.1"
quote = "=1.0.47"
proc-macro2 = "=1.0.107"
blake3 = { version = "=1.8.7", features = ["pure"] }
case = "*"
