[package]
name = "spatial_display"
version = "0.1.0"
edition = "2021"
publish = false

[dependencies]
dcmimu = "=0.3.0"
