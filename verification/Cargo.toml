[package]
name = "handlebars-chrono"
version = "0.1.0"
edition = "2021"
publish = false

[dependencies]
chrono = { version = "0.4", features = ["unstable-locales"] }
chrono-tz = "*"
handlebars = "*"
