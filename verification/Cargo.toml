[package]
name = "imgproxy"
version = "0.1.0"
edition = "2021"
publish = false

[dependencies]
image = "*"
url = "*"
reqwest = { version = "*", default-features = false, features = ["blocking"] }
envy = "*"
serde = { version = "*", features = ["derive"] }
