[package]
name = "actionloop"
version = "0.1.0"
edition = "2021"
publish = false

[dependencies]
crossterm = "*"
ratatui = "*"
tokio = { version = "*", features = ["rt", "rt-multi-thread", "sync", "time", "macros"] }
fantoccini = { version = "*", default-features = false, features = ["rustls-tls"] }
