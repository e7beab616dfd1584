[package]
name = "sensor_core"
version = "0.1.0"
edition = "2021"
publish = false

[dependencies]
chrono = "0.4"
rppal = "*"
log = "0.4"
simple-logging = "*"
ctrlc = "*"
