[package]
name = "gateway_core"
version = "0.1.0"
edition = "2021"
publish = false

[dependencies]
focaccia = "*"
anyhow = "1"
tokio = { version = "1", features = ["net", "io-util", "rt", "rt-multi-thread", "sync", "macros", "time"] }
url = "2"
hyper = { version = "0.14", features = ["server", "http1"] }
tokio-rustls = "*"
tokio-tungstenite = "*"
slog = "2"
portpicker = "*"
picky-krb = "*"
