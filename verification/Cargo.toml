[package]
name = "hax_frontend_exporter"
version = "0.1.0"
edition = "2021"
publish = false

[dependencies]
extension-traits = "2.0.3"
tracing = "0.1.44"
