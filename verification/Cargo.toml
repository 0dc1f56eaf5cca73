[package]
name = "pubsub_producer"
version = "0.1.0"
edition = "2021"
publish = false

[dependencies]
slog = "*"
