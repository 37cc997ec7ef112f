[package]
name = "fetch_bridge"
version = "0.1.0"
edition = "2021"
publish = false

[dependencies]
reqwest = { version = "=0.11.27" }

[dev-dependencies]
reqwest = { version = "=0.11.27", features = ["blocking"] }
