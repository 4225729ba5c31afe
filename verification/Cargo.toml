[package]
name = "smart_car"
version = "0.1.0"
edition = "2021"
publish = false

[dependencies]
postcard = "1"
serde = { version = "1", features = ["derive"] }
embedded-hal = "1"
cortex-m = "0.7"
portable-atomic = "1"
embassy-rp = { version = "*", features = ["rp2040"] }
embassy-time = "*"
rf24-rs = "*"
embedded-graphics = "*"
ssd1306 = "*"
