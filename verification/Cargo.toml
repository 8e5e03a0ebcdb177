[package]
name = "cursor_stream"
version = "0.1.0"
edition = "2021"
publish = false

[dependencies]
async-stream = "0.3"
futures = "0.3"
prost = { version = "0.11", default-features = false, features = ["std"] }
tokio = { version = "1", default-features = false, features = ["macros"] }
