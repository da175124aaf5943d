[package]
name = "weatherbot"
version = "0.1.0"
edition = "2021"
publish = false

[dependencies]
irc = "*"
clap = { version = "*", features = ["derive"] }
reqwest = { version = "*", default-features = false, features = ["json", "rustls-tls"] }
serde_json = "*"
tokio = { version = "*", features = ["rt-multi-thread", "macros", "time"] }
futures-util = "*"
rustls = "*"
tokio-rustls = "*"
webpki-roots = "*"
