[package]
name = "lockdown"
version = "0.1.0"
edition = "2021"
publish = false

[dependencies]
rand = "*"
scraper = "*"
serde_json = "1"
reqwest = { version = "*", default-features = false, features = ["cookies"] }
tokio = { version = "*", default-features = false, features = ["macros", "rt-multi-thread"] }
x-rs = "*"
