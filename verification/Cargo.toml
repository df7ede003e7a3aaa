[package]
name = "portal_shell"
version = "0.1.0"
edition = "2021"
publish = false

[dependencies]
serde_json = "*"
serde = { version = "*", features = ["derive"] }
axum = "*"
tokio = { version = "*", features = ["rt-multi-thread", "macros", "net"] }
reqwest = { version = "*", default-features = false }
clap = { version = "*", features = ["derive"] }
toml = "*"
tower-http = { version = "*", features = ["fs"] }
