[package]
name = "quote_extract"
version = "0.1.0"
edition = "2021"
publish = false

[dependencies]
scraper = "*"
serde = { version = "1", features = ["derive"] }
actix-web = "4"
actix-files = "*"
futures = "0.3"
reqwest = { version = "*", features = ["blocking"] }
