[package]
name = "ockam_enroll"
version = "0.1.0"
edition = "2021"
publish = false

[dependencies]
ockam_core = "=0.35.0"
minicbor = { version = "=2.3.0", features = ["std"] }
