[package]
name = "rustforum"
version = "0.1.0"
edition = "2021"
publish = false

[dependencies]
jsonwebtoken = "=9.3.1"
serde_json = { version = "=1.0.154", features = ["preserve_order"] }
serde = { version = "=1.0.229", features = ["derive"] }
rocket = { version = "=0.5.2", features = ["json"] }
diesel = { version = "=2.3.14", features = ["postgres"] }

[dev-dependencies]
base64 = "=0.22.1"
