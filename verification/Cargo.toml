[package]
name = "http_error_derive"
version = "0.1.0"
edition = "2021"
publish = false

[dependencies]
darling = "*"
proc-macro2 = "*"
quote = "*"
serde_json = "*"
syn = { version = "*", features = ["full"] }

[dev-dependencies]
axum = { version = "*", default-features = false }
