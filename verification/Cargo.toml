[package]
name = "sunscreen_compiler"
version = "0.1.0"
edition = "2021"
publish = false

[dependencies]
backtrace = "=0.3.76"
serde = { version = "=1.0.229", features = ["derive"] }
serde_json = "1"
petgraph = "=0.6.5"
actix-web = "=4.15.0"
