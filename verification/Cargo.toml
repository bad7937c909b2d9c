[package]
name = "logon_logger"
version = "0.1.0"
edition = "2021"
publish = false

[dependencies]
calamine = { version = "*", features = ["dates"] }
rust_xlsxwriter = "*"
chrono = "*"
tokio = { version = "*", features = ["macros", "rt-multi-thread", "sync", "process", "time"] }
eyre = "*"
