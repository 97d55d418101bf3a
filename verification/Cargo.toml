[package]
name = "music_stream"
version = "0.1.0"
edition = "2021"
publish = false

[dependencies]
bytes = "=1.12.1"
metrics = "=0.24.6"
opus = "=0.3.1"
rand = "=0.9.5"
reqwest = { version = "=0.12.28", default-features = false, features = ["stream"] }
rubato = "=2.0.0"
symphonia = { version = "=0.6.1", features = ["all"] }
thiserror = "=2.0.21"
tokio = { version = "=1.54.1", features = ["rt", "rt-multi-thread", "sync", "time", "net", "macros"] }
tokio-util = { version = "=0.7.20", features = ["rt"] }
tracing = "=0.1.44"
