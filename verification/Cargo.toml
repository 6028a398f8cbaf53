[package]
name = "aze"
version = "0.1.0"
edition = "2021"
publish = false

[dependencies]
url = "2"
serde = { version = "1", features = ["derive"] }
clap = { version = "4", features = ["derive"] }
actix-web = { version = "4", default-features = false, features = ["macros"] }
derive_more = "0.99"
dialoguer = "0.11"
tokio = { version = "1", features = ["rt", "macros", "time"] }
tokio-tungstenite = "0.21"
futures-util = "0.3"
ansi_term = "0.12"
toml = "0.8"
