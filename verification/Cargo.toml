[package]
name = "bulkfetch"
version = "0.1.0"
edition = "2021"
publish = false

[dependencies]
zip = { version = "*", default-features = false }
frankenstein = { version = "*", features = ["client-reqwest"] }
reqwest = { version = "*", features = ["json"] }
tokio = { version = "*", features = ["rt-multi-thread", "macros", "time", "sync", "fs"] }
serde = { version = "*", features = ["derive"] }
serde_json = "*"
anyhow = "*"
tempfile = "*"
