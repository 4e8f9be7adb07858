[package]
name = "pixoo_status"
version = "0.1.0"
edition = "2021"
publish = false

[dependencies]
chrono = "=0.4.26"
clap = { version = "4", features = ["derive"] }
divoom = "=0.1.42"
tokio = { version = "1", features = ["macros", "rt-multi-thread"] }
webex = "=0.10.0"
