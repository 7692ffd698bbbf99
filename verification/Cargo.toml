[package]
name = "ferrisland"
version = "0.1.0"
edition = "2021"
publish = false

[dependencies]
anyhow = "*"
dotenvy = "*"
russh = "*"
russh-keys = "*"
tokio = { version = "*", features = ["rt-multi-thread", "macros", "io-util", "process", "net", "time", "sync"] }
