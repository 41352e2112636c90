[package]
name = "kneplant"
version = "0.1.0"
edition = "2021"
publish = false

[dependencies]
anyhow = "1"
log = "0.4"
embedded-svc = "0.28"
esp-idf-hal = "0.45"
esp-idf-svc = "0.51"
esp-idf-sys = "0.36"
