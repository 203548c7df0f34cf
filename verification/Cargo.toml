[package]
name = "oci_file_gateway"
version = "0.1.0"
edition = "2021"
publish = false

[dependencies]
axum = "*"
oci-spec = { version = "*", features = ["distribution"] }
reqwest = { version = "*", default-features = false, features = ["json"] }
serde_json = "*"
tokio = { version = "*", features = ["macros", "rt-multi-thread", "net"] }
tracing = "*"
tracing-subscriber = "*"
