[package]
name = "mls_session"
version = "0.1.0"
edition = "2021"
publish = false

[dependencies]
openmls = "=0.9.1"
openmls_basic_credential = "=0.6.0"
openmls_memory_storage = { version = "=0.6.0", features = ["test-utils"] }
openmls_rust_crypto = "=0.6.0"
