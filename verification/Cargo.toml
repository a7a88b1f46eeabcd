[package]
name = "serial_console"
version = "0.1.0"
edition = "2021"
publish = false

[dependencies]
chrono = "0.4"
clap = { version = "4", features = ["derive"] }
const_format = "0.2"
crossterm = { version = "*", features = ["event-stream"] }
futures = "0.3"
serialport = { version = "4", default-features = false }
terminal-spinner-data = "*"
tokio = { version = "1", features = ["rt", "time", "io-util"] }
tokio-serial = "5.4"
