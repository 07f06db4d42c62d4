[package]
name = "ddv"
version = "0.1.0"
edition = "2021"
publish = false

[dependencies]
textwrap = "*"
ratatui = "*"
tokio = { version = "*", features = ["rt-multi-thread", "macros", "sync"] }
aws-config = "*"
aws-sdk-dynamodb = "*"
aws-smithy-types = "*"
chrono = "*"
rust_decimal = "*"
serde = { version = "*", features = ["derive"] }
serde_json = "*"
base64 = "*"
humansize = "*"
console = "*"
