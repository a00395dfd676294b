[package]
name = "astronomy_engine"
version = "0.1.0"
edition = "2021"
publish = false

[dependencies]
chrono = { version = "0.4", default-features = false }
sgp4 = { version = "*", default-features = false, features = ["libm"] }
