[package]
name = "pkarr"
version = "0.1.0"
edition = "2021"
publish = false

[dependencies]
anyhow = "1"
clap = "4"
domain = { version = "=0.12.3", features = ["zonefile"] }
flume = "*"
mainline = "=2.0.1"
simple-dns = "=0.6.2"
tokio = { version = "1", features = ["macros", "rt-multi-thread"] }
