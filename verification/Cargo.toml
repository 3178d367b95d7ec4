[package]
name = "pixel_astral_backend"
version = "0.1.0"
edition = "2021"
publish = false

[dependencies]
bcrypt = "=0.19.3"
jsonwebtoken = { version = "=11.1.0", default-features = false, features = ["rust_crypto"] }
serde_json = "=1.0.151"
chrono = "=0.4.45"
dotenvy = "=0.15.7"
