[package]
name = "codexpc"
version = "0.1.0"
edition = "2021"
publish = false

[dependencies]
serde_json = { version = "=1.0.154", features = ["preserve_order"] }
openai-harmony = "=0.0.8"
tokio = { version = "=1.54.1", features = ["sync", "rt", "macros", "process", "io-util"] }
libc = "=0.2.191"
tracing = "=0.1.44"
