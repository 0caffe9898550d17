[package]
name = "lumo"
version = "0.1.0"
edition = "2021"
publish = false

[dependencies]
serde_json = "1"
nanoid = "0.4"
futures = "0.3"
async-trait = "0.1"
anyhow = "1"
log = "0.4"
tracing = "0.1"
chrono = "0.4"
