[package]
name = "pisa_query"
version = "0.1.0"
edition = "2021"
publish = false

[dependencies]
bson = "2"
serde_json = "1"
tracing = "0.1"
