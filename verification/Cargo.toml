[package]
name = "auto_sade"
version = "0.1.0"
edition = "2021"
publish = false

[dependencies]
anyhow = "=1.0.104"
calamine = "0.37"
chromiumoxide = { version = "=0.7.0", default-features = false, features = ["tokio-runtime"] }
chrono = "=0.4.45"
dirs = "=5.0.1"
dotenvy = "=0.15.7"
futures = "=0.3.34"
lopdf = "=0.34.0"
pdf-extract = "=0.7.12"
regex = "=1.13.1"
rust_xlsxwriter = "=0.87.0"
tokio = { version = "=1.54.1", features = ["rt-multi-thread", "time"] }
