[package]
name = "revsocks"
version = "0.1.0"
edition = "2021"
publish = false

[dependencies]
tokio = { version = "*", features = ["net", "io-util", "rt-multi-thread", "macros", "time"] }
tokio-util = { version = "*", features = ["compat"] }
yamux = "*"
native-tls = "*"
tokio-native-tls = "*"
clap = { version = "*", features = ["derive"] }
log = "*"
