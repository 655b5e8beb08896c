[package]
name = "dereference"
version = "0.1.0"
edition = "2021"
publish = false

[dependencies]
clippy_utils = "=0.1.101"
indexmap = "=1.9.3"
rustc_data_structures = "=0.1.2"
rustc_errors = "=0.1.2"
rustc_span = "=0.1.2"
