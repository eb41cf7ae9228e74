[package]
name = "sensd"
version = "0.1.0"
edition = "2021"
publish = false

[dependencies]
chrono = "0.4"
serde = { version = "1", features = ["derive"] }
custom_error = "1"
float-cmp = "*"
pid = "*"
