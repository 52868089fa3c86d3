[package]
name = "jwt_claims"
version = "0.1.0"
edition = "2021"
publish = false

[dependencies]
coarsetime = "=0.1.38"
serde = { version = "=1.0.228", features = ["derive"] }
