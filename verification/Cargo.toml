[package]
name = "round_robin"
version = "0.1.0"
edition = "2021"
publish = false

[dependencies]
async-trait = "=0.1.92"
log = "=0.4.34"
tokio = { version = "=1.54.1", default-features = false, features = ["rt", "time"] }
sp-inherents = { version = "=44.0.0", default-features = false }
