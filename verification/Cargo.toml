[package]
name = "source_resolve"
version = "0.1.0"
edition = "2021"
publish = false

[dependencies]
anyhow = "1"
hyper = { version = "0.14", default-features = false }
serde_json = "1"
serde_qs = "0.10"
urlencoding = "2.1"
