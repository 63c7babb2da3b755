[package]
name = "flowy_storage"
version = "0.1.0"
edition = "2021"
publish = false

[dependencies]
bytes = "1"
fxhash = "0.2"
mime_guess = "2"
tokio = { version = "1", features = ["fs", "io-util"] }
tracing = "0.1"
