[package]
name = "myconnect"
version = "0.1.0"
edition = "2021"
publish = false

[dependencies]
sha2 = "=0.10.9"
i18n-embed = { version = "=0.16.0", features = ["fluent-system", "filesystem-assets"] }
fluent-bundle = "0.16"
serde = { version = "=1.0.229", features = ["derive"] }
serde_json = "=1.0.154"
directories = "=6.0.0"
opener = "=0.9.0"
fluent-syntax = "=0.12.0"
