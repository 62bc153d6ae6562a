[package]
name = "openmls"
version = "0.1.0"
edition = "2021"
publish = false

[dependencies]
openmls_traits = "=0.2.0"
openmls_rust_crypto = "=0.2.0"
openmls_basic_credential = "=0.2.0"
tls_codec = { version = "=0.3.0", features = ["derive", "serde", "mls"] }
serde = { version = "1", features = ["derive"] }
thiserror = "1"
log = "0.4"
