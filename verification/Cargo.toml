[package]
name = "csv_attest"
version = "0.1.0"
edition = "2021"
publish = false

[dependencies]
openssl = "0.10"
iocuddle = "0.1"
serde = { version = "1.0", features = ["derive"] }
serde-big-array = "0.5"
codicon = "3.0"
