[package]
name = "biquad_eq"
version = "0.1.0"
edition = "2021"
publish = false

[dependencies]
rustc_apfloat = "=0.2.3"
serde = { version = "=1.0.229", features = ["derive"] }
