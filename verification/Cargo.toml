[package]
name = "bme280"
version = "0.1.0"
edition = "2021"
publish = false

[dependencies]
anyhow = "1"
embedded-hal = "1"
esp-idf-hal = "*"
esp-idf-svc = "*"
