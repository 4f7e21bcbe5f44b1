[package]
name = "test_login_page"
version = "0.1.0"
edition = "2021"
publish = false

[dependencies]
hex = "0.4"
itertools = "*"
serde = { version = "1", features = ["derive"] }
sha3-rust = "*"
tokio = { version = "1", features = ["rt"] }
tokio-postgres = "0.7"
dioxus = { version = "0.7", default-features = false, features = ["macro", "html", "signals", "hooks", "launch", "document", "asset", "router"] }
dioxus-sdk-storage = "*"
