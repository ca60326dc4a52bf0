[package]
name = "speedmeter"
version = "0.1.0"
edition = "2021"
publish = false

[dependencies]
chrono = "*"
speedtest-rs = "*"
influxdb = "*"
clap = { version = "*", features = ["derive"] }
async-std = "*"
