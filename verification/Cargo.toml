[package]
name = "chiron"
version = "0.1.0"
edition = "2021"
publish = false

[dependencies]
url = "*"
scraper = "*"
html2text = "*"
serde_json = "*"
serde = { version = "*", features = ["derive"] }
anyhow = "*"
chrono = { version = "*", features = ["serde"] }
clap = "*"
dirs = "*"
futures-util = "*"
mediawiki = "*"
reqwest = { version = "*", features = ["json"] }
tokio = { version = "*", features = ["rt-multi-thread", "macros", "signal", "fs", "time", "io-util"] }
tracing-subscriber = "*"
uuid = { version = "*", features = ["v4", "serde"] }
