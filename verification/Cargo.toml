[package]
name = "pot_voting"
version = "0.1.0"
edition = "2021"
publish = false

[dependencies]
bounded-collections = "0.2"
parity-scale-codec = { version = "3", features = ["derive"] }
scale-info = { version = "2", features = ["derive"] }
serde = { version = "1", features = ["derive"] }
sp-core = "*"
log = "0.4"
