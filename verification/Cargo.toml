[package]
name = "mlua_luau_runtime"
version = "0.1.0"
edition = "2021"
publish = false

[dependencies]
async-executor = "1"
blocking = "1"
mlua = { version = "0.9", features = ["luau", "async"] }
tracing = "0.1"
