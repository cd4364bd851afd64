[package]
name = "timetable_bot"
version = "0.1.0"
edition = "2021"
publish = false

[dependencies]
chrono = "=0.4.45"
rand = "=0.8.8"
takecell = "=0.1.1"
anyhow = "1"
log = "0.4"
simple_logger = "4"
serde = { version = "1", features = ["derive"] }
figment = { version = "0.10", features = ["toml"] }
dptree = "0.3"
tokio = { version = "1", features = ["macros", "rt-multi-thread"] }
teloxide = { version = "=0.12.2", default-features = false, features = ["rustls", "ctrlc_handler", "macros"] }
sqlx = { version = "=0.7.4", default-features = false, features = ["runtime-tokio", "tls-rustls", "postgres", "macros", "chrono"] }
