[package]
name = "revolt_core"
version = "0.1.0"
edition = "2021"
publish = false

[dependencies]
serde = { version = "=1.0.229", features = ["derive"] }
log = "=0.4.35"
rocket = "=0.5.2"
rocket_cors = "=0.6.0"
rocket_prometheus = "=0.10.1"
amqprs = "=1.8.0"
async-std = "=1.13.2"
authifier = { version = "=1.0.16", default-features = false }
revolt_rocket_okapi = "=0.10.0"
