[package]
name = "dsmr_exporter"
version = "0.1.0"
edition = "2021"
publish = false

[dependencies]
clap = { version = "*", features = ["derive"] }
dsmr5 = "*"
prometheus-client = "*"
tiny_http = "*"
