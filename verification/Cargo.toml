[package]
name = "r2d2_redis"
version = "0.1.0"
edition = "2021"
publish = false

[dependencies]
r2d2 = "0.8"
redis = { version = "*", default-features = false }
