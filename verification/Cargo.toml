[package]
name = "kyutaistt"
version = "0.1.0"
edition = "2021"
publish = false

[dependencies]
anyhow = "1"
candle-core = "0.9.1"
candle-nn = "0.9.1"
candle-transformers = "0.9.1"
glib = "0.20"
gstreamer = "0.23"
gstreamer-base = "0.23"
hf-hub = { version = "0.4.3", default-features = false, features = ["ureq", "rustls-tls"] }
moshi = "0.6.1"
once_cell = "1"
rubato = "0.16"
sentencepiece = "0.11.3"
serde = { version = "1", features = ["derive"] }
serde_json = "1"
