[package]
name = "mini_crates"
version = "0.1.0"
edition = "2021"
publish = false

[dependencies]
async-trait = "0.1"
axum = "0.8"
bytes = "1"
hex = "0.4"
sea-orm = { version = "1", default-features = false, features = ["macros", "with-json"] }
semver = "1"
serde = { version = "1", features = ["derive"] }
serde_json = "1"
sha2 = "0.10"
