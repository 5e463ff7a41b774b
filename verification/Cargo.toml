[package]
name = "scorm_builder"
version = "0.1.0"
edition = "2021"
publish = false

[dependencies]
zip = "*"
quick-xml = "*"
uuid = { version = "*", features = ["v4"] }
serde = { version = "*", features = ["derive"] }
serde_json = "*"
