[package]
name = "docs_relay"
version = "0.1.0"
edition = "2021"
publish = false

[dependencies]
scraper = "*"
serde = { version = "*", features = ["derive"] }
actix-web = { version = "*", default-features = false, features = ["macros"] }
reqwest = { version = "*", default-features = false }
dotenvy = "*"
log = "*"
tracing-subscriber = "*"
