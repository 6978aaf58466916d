[package]
name = "cmdtree"
version = "0.1.0"
edition = "2021"
publish = false

[dependencies]
serenity = "*"
chrono = "*"
config = "*"
serde = { version = "*", features = ["derive"] }
tracing = "*"
tracing-subscriber = "*"
diesel = "*"
diesel-async = { version = "*", features = ["postgres"] }
