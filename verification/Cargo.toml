[package]
name = "block_analysis"
version = "0.1.0"
edition = "2021"
publish = false

[dependencies]
url = "*"
serde = { version = "*", features = ["derive"] }
thiserror = "*"
tokio = { version = "*", features = ["rt", "macros", "time"] }
alloy = { version = "*", default-features = false, features = ["provider-http", "rpc-types"] }
