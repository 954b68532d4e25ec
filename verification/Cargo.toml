[package]
name = "event_collector"
version = "0.1.0"
edition = "2021"
publish = false

[dependencies]
parking_lot = "0.12"
tracing = "0.1"
tracing-log = "0.2"
tracing-subscriber = "0.3"
