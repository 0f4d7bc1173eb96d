[package]
name = "validate_tokens"
version = "0.1.0"
edition = "2021"
publish = false

[dependencies]
alloy-primitives = "*"
base64 = "*"
clap = { version = "*", features = ["derive"] }
reqwest = { version = "*", default-features = false, features = ["json"] }
serde = { version = "*", features = ["derive"] }
serde_json = "*"
tokio = { version = "*", features = ["macros", "rt"] }
url = "*"
