[package]
name = "kiosk_controller"
version = "0.1.0"
edition = "2021"
publish = false

[dependencies]
url = "*"
tokio = { version = "*", features = ["rt-multi-thread", "macros", "time", "process"] }
reqwest = { version = "*", default-features = false, features = ["json"] }
serde = { version = "*", features = ["derive"] }
serde_json = "*"
thirtyfour = "*"
