[package]
name = "app_core"
version = "0.1.0"
edition = "2021"
publish = false

[dependencies]
heapless = "0.8"
embassy-time = { version = "0.4", features = ["std"] }
embedded-hal = "1.0"
embedded-sdmmc = "0.8"
embedded-graphics = "0.8"
serde = { version = "1", default-features = false, features = ["derive"] }
