[package]
name = "xspring"
version = "0.1.0"
edition = "2021"
publish = false

[dependencies]
anyhow = "1"
clap = { version = "4", features = ["derive"] }
clap-verbosity-flag = "2"
inquire = "0.7"
reqwest = { version = "0.12", default-features = false, features = ["json"] }
serde = { version = "1", features = ["derive"] }
tokio = { version = "1", features = ["macros", "rt"] }
tracing = "0.1"
tracing-appender = "0.2"
tracing-subscriber = "0.3"
zip = { version = "2", default-features = false }
