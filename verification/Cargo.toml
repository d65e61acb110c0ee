[package]
name = "gfontapi"
version = "0.1.0"
edition = "2021"
publish = false

[dependencies]
clap = { version = "*", features = ["derive"] }
futures = "*"
indicatif = "*"
owo-colors = "*"
reqwest = { version = "*", default-features = false, features = ["stream"] }
serde = { version = "*", features = ["derive"] }
serde_json = "*"
subprocess = "*"
tokio = { version = "*", features = ["macros", "rt-multi-thread"] }
