[package]
name = "docstore"
version = "0.1.0"
edition = "2021"
publish = false

[dependencies]
automerge = "=0.5.12"
chrono = "=0.4.45"
directories = "=6.0.0"
rusqlite = { version = "=0.41.1", features = ["bundled"] }
thiserror = "=2.0.21"
tokio = { version = "=1.54.1", features = ["rt-multi-thread", "sync"] }
