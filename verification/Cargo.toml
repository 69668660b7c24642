[package]
name = "photo_booking"
version = "0.1.0"
edition = "2021"
rust-version = "1.95"
publish = false

[dependencies]
chrono = { version = "=0.4.45", default-features = false, features = ["std", "clock"] }
url = "=2.5.8"
time = { version = "=0.3.55", features = ["formatting", "parsing", "macros"] }
teloxide = "0.17"
takecell = "=0.1.1"
sqlx = { version = "0.8", default-features = false, features = ["postgres", "runtime-tokio", "time"] }
tokio = { version = "1", features = ["rt-multi-thread", "macros", "sync"] }
dotenvy = "0.15"
log = "0.4"
pretty_env_logger = "0.5"
