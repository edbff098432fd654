[package]
name = "preloader"
version = "0.1.0"
edition = "2021"
publish = false

[dependencies]
thiserror = "1"
tokio = { version = "1", default-features = false, features = ["rt", "sync"] }

[dev-dependencies]
tokio = { version = "1", default-features = false, features = ["rt", "rt-multi-thread", "sync", "time"] }
