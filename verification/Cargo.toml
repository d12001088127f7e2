[package]
name = "correlation"
version = "0.1.0"
edition = "2021"
publish = false

[dependencies]
handlebars = "*"
serde = { version = "*", features = ["derive"] }
serde_json = "*"
uuid = { version = "*", features = ["v4"] }
