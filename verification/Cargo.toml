[package]
name = "truston"
version = "0.1.0"
edition = "2021"
publish = false

[dependencies]
async-trait = "0.1"
ndarray = "0.16"
num-traits = "0.2"
reqwest = { version = "0.12", default-features = false, features = ["json"] }
serde = { version = "1", features = ["derive"] }
serde_json = "1"
tracing = "0.1"
tracing-subscriber = "0.3"
