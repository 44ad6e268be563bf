[package]
name = "mqtt_session"
version = "0.1.0"
edition = "2021"
publish = false

[dependencies]
embedded-nal = "=0.6.0"
heapless = "=0.8.0"
