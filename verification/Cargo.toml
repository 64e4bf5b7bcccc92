[package]
name = "convex_curves"
version = "0.1.0"
edition = "2021"
publish = false

[dependencies]
convex-core = "*"
convex-math = "*"
rust_decimal = "*"
serde = { version = "*", features = ["derive"] }
thiserror = "*"
