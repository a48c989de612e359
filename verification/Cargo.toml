[package]
name = "sensor_chart"
version = "0.1.0"
edition = "2021"
publish = false

[dependencies]
chrono = { version = "0.4", default-features = false, features = ["std"] }
csv = "1"
encoding_rs = "0.8"
plotters = "0.3"
