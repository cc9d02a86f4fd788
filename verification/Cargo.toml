[package]
name = "userop"
version = "0.1.0"
edition = "2021"
publish = false

[dependencies]
ethers-core = "2"
rand = "0.8"
serde = { version = "1", features = ["derive"] }
serde_json = "1"
reqwest = { version = "0.12", default-features = false, features = ["json"] }
tokio = { version = "1", features = ["rt", "macros"] }
dotenv = "0.15"
