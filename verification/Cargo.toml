[package]
name = "proto-builder-trait"
version = "0.1.0"
edition = "2021"
publish = false

[dependencies]
prost-build = "=0.13.5"
tonic-build = "=0.12.3"

[dev-dependencies]
prost = "=0.13.5"
prost-types = "=0.13.5"
tempfile = "=3.27.0"
