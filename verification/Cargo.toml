[package]
name = "woopra_component"
version = "0.1.0"
edition = "2021"
publish = false

[dependencies]

[dev-dependencies]
serde = "*"
serde_qs = "*"
