[package]
name = "ornery_bot"
version = "0.1.0"
edition = "2021"
publish = false

[dependencies]
csv = "1"
dotenv = "0.15"
lazy_static = "1.4"
mongodb = "1.1"
rand = "0.7"
regex = "1"
reqwest = { version = "0.10", default-features = false, features = ["rustls-tls"] }
select = "*"
serde_json = "1"
serenity = "0.9"
tokio = { version = "0.2", features = ["macros", "rt-threaded", "signal", "stream"] }
