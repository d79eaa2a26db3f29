[package]
name = "ninja_timer"
version = "0.1.0"
edition = "2021"
publish = false

[dependencies]
actix-files = "0.6"
actix-multipart = "0.6"
actix-web = "4"
chrono = "0.4"
futures-util = "0.3"
rppal = "0.14"
sdl2 = { version = "0.35", features = ["ttf", "image", "mixer"] }
serde = { version = "1", features = ["derive"] }
serde_json = "1"
