[package]
name = "feagi-java-ffi"
version = "0.1.0"
edition = "2021"
publish = false

[dependencies]
feagi-agent = "*"
feagi-io = "*"
serde = { version = "1", features = ["derive"] }
serde_json = "1"
