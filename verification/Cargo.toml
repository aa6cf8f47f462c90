[package]
name = "chart_widget"
version = "0.1.0"
edition = "2021"
publish = false

[dependencies]
iced = { version = "*", default-features = false, features = ["advanced", "canvas"] }
iced_core = { version = "*" }
