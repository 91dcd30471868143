[package]
name = "oraki"
version = "0.1.0"
edition = "2021"
publish = false

[dependencies]
csv = "1"
regex = "1"
scraper = "*"
serde_json = "1"
reqwest = "*"
tokio = { version = "1", features = ["macros", "rt-multi-thread"] }
dirs = "*"
genanki-rs = "*"
indicatif = "*"
