[package]
name = "protocol_codegen"
version = "0.1.0"
edition = "2021"
publish = false

[dependencies]
anyhow = "1"
serde = { version = "1", features = ["derive"] }
serde_json = "1"
tinytemplate = "1"
toml = "0.8"
