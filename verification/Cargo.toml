[package]
name = "utc_fetcher"
version = "0.1.0"
edition = "2021"
publish = false

[dependencies]
embedded-svc = "0.27"
esp-idf-hal = "0.43"
esp-idf-svc = "0.48"
esp-idf-sys = "0.34"
heapless = "0.8"
log = "0.4"
parking_lot = "0.12"
serde = { version = "1", features = ["derive"] }
serde_json = "1"
serde_urlencoded = "0.7"
thiserror = "1"
time = { version = "0.3", features = ["macros", "parsing", "formatting"] }
