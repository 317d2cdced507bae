[package]
name = "text_cursor"
version = "0.1.0"
edition = "2021"
publish = false

[dependencies]
parley = "*"
ecolor = "*"
accesskit = "*"
serde = { version = "1", features = ["derive"] }
