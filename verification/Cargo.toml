[package]
name = "tower_fallthrough_filter"
version = "0.1.0"
edition = "2021"
publish = false

[dependencies]
tower = { version = "*", default-features = false }
