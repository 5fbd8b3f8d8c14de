[package]
name = "vmbus_server"
version = "0.1.0"
edition = "2021"
publish = false

[dependencies]
anyhow = "1"
async-trait = "0.1"
futures = "0.3"
tracing = "0.1"
unicycle = "0.10"
