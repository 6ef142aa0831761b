[package]
name = "nosql_callbacks"
version = "0.1.0"
edition = "2021"
publish = false

[dependencies]
tokio = { version = "=1.53.2", features = ["sync", "rt", "rt-multi-thread"] }
async-trait = "=0.1.92"
