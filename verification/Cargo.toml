[package]
name = "xi_plugin_lib"
version = "0.1.0"
edition = "2021"
publish = false

[dependencies]
serde_json = "*"
xi-trace = "*"
xi-rpc = "*"
xi-core-lib = "*"
