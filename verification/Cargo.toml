[package]
name = "bluerepl"
version = "0.1.0"
edition = "2021"
publish = false

[dependencies]
tokio = { version = "=1.53.2", features = ["rt-multi-thread", "macros", "time", "sync"] }
clap = "=3.2.25"
btleplug = "=0.11.8"
futures = "0.3"
