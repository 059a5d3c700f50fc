[package]
name = "ainoio_agent"
version = "0.1.0"
edition = "2021"
publish = false

[dependencies]
config = { version = "0.13", default-features = false, features = ["toml"] }
futures = { version = "0.3", features = ["executor"] }
lazy_static = "1"
serde = { version = "1", features = ["derive"] }
serde_derive = "1"
serde_json = "1"
strum = "*"
strum_macros = "*"
surf = { version = "2", default-features = false, features = ["h1-client"] }
