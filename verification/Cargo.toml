[package]
name = "non_empty_slice"
version = "0.1.0"
edition = "2021"
publish = false

[dependencies]
non-zero-size = "=0.2.0"
non-empty-iter = "=0.3.1"
thiserror = "=2.0.21"
miette = "=7.6.0"
serde = "=1.0.229"
ownership = "=0.3.0"
