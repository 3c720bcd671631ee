[package]
name = "sad"
version = "0.1.0"
edition = "2021"
publish = false

[dependencies]
clap = "4"
colored = "*"
tokio = { version = "1", features = ["macros", "rt-multi-thread"] }
