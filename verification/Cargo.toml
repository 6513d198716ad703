[package]
name = "functionless_closures"
version = "0.1.0"
edition = "2021"
publish = false

[dependencies]
im = "15"
swc_core = { version = "*", features = ["ecma_plugin_transform"] }
