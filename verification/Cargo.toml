[package]
name = "standard_error"
version = "0.1.0"
edition = "2021"
publish = false

[dependencies]
axum = "*"
config = { version = "*", default-features = false }
diesel = { version = "*", default-features = false }
git2 = { version = "*", default-features = false }
hyper = "*"
lazy_static = "1"
log = "0.4"
r2d2_postgres = "*"
reqwest = { version = "*", default-features = false }
serde = { version = "1", features = ["derive"] }
serde_json = "1"
serde_yaml = "0.9"
thiserror = "1"

[dev-dependencies]
http = "*"
