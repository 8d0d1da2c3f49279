[package]
name = "mail_client"
version = "0.1.0"
edition = "2021"
publish = false

[dependencies]
color-eyre = "0.6"
imap = { version = "3.0.0-alpha.9", default-features = false, features = ["rustls-tls"] }
once_cell = "1"
quick-xml = { version = "0.31", features = ["serialize"] }
relm4 = "0.6"
reqwest = { version = "0.11", default-features = false, features = ["rustls-tls"] }
rustls-connector = "0.18"
serde = { version = "1", features = ["derive"] }
tokio = { version = "1", features = ["rt-multi-thread"] }
tracing = "0.1"
tracing-subscriber = "0.3"
