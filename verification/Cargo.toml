[package]
name = "swanky_node"
version = "0.1.0"
edition = "2021"
publish = false

[dependencies]
ink_env = "3.4"
parity-scale-codec = { version = "3", features = ["derive"] }
hex = "0.4"
futures = "0.3"
