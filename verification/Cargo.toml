[package]
name = "grpc_stream_template"
version = "0.1.0"
edition = "2021"
publish = false

[dependencies]
anyhow = "*"
bs58 = "*"
env_logger = "*"
futures = "*"
log = "*"
serde = { version = "*", features = ["derive"] }
tokio = { version = "*", features = ["macros", "rt-multi-thread", "signal"] }
toml = "*"
tonic = "*"
yellowstone-grpc-client = "*"
yellowstone-grpc-proto = "*"
