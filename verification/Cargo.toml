[package]
name = "xml_processor"
version = "0.1.0"
edition = "2021"
publish = false

[dependencies]
anyhow = "1"
polars = { version = "0.46", default-features = false }
pyo3 = { version = "0.23", features = ["abi3-py39"] }
pyo3-polars = "0.20"
quick-xml = "0.37"
regex = "1"
serde = { version = "1", features = ["derive"] }
serde_json = "1"
