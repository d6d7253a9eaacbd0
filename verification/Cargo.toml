[package]
name = "wit_query"
version = "0.1.0"
edition = "2021"
publish = false

[dependencies]
anyhow = "=1.0.104"
id-arena = "=2.3.0"
wit-component = { version = "=0.200.0", features = ["dummy-module"] }
wit-parser = "=0.200.0"
