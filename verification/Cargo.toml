[package]
name = "arcana"
version = "0.1.0"
edition = "2021"
publish = false

[dependencies]
derive_more = "0.99"
futures = "0.3"
pin-project = "1"
ref-cast = "1"
static_assertions = "1"
