[package]
name = "pmm_core"
version = "0.1.0"
edition = "2021"
publish = false

[dependencies]
limine = "=0.5.0"
spin = "=0.12.3"
lazy_static = "=1.5.1"
