[package]
name = "now_playing"
version = "0.1.0"
edition = "2021"
publish = false

[dependencies]
clap = { version = "=4.6.7", features = ["derive"] }
human-repr = "=1.1.0"
tokio = { version = "=1.54.1", features = ["macros", "rt-multi-thread"] }
windows = { version = "0.57", features = ["Media_Control"] }
