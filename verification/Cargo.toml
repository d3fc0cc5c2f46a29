[package]
name = "ya-runtime-dbg"
version = "0.1.0"
edition = "2021"
publish = false

[dependencies]
ansi_term = "=0.12.1"
anyhow = "=1.0.104"
directories = "=3.0.2"
shell-words = "=1.1.1"
structopt = "=0.3.26"
linefeed = "=0.6.0"
futures = "=0.3.34"
tokio = { version = "=0.2.25", features = ["process", "signal", "io-util", "rt-core", "macros"] }
tokio-util = { version = "=0.3.1", features = ["codec"] }
actix = "=0.10.0"
actix-rt = "=1.1.1"
ya-runtime-api = "=0.4.0"
