[package]
name = "golem_api_model"
version = "0.1.0"
edition = "2021"
publish = false

[dependencies]
uuid = "=1.29.0"
golem-wasm-ast = { version = "=1.3.1", default-features = false, features = ["analysis", "json"] }
async-trait = "=0.1.92"
futures = "=0.3.34"
serde = { version = "=1.0.229", features = ["derive"] }
thiserror = "=1.0.69"
