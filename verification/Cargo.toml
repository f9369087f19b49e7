[package]
name = "worbots_setup"
version = "0.1.0"
edition = "2021"
publish = false

[dependencies]
anyhow = "*"
clap = { version = "*", features = ["derive"] }
color-print = "*"
directories = "*"
reqwest = { version = "*", default-features = false, features = ["json", "rustls-tls"] }
serde = { version = "*", features = ["derive"] }
textwrap = "*"
tokio = { version = "*", features = ["rt-multi-thread"] }
zip-extract = "*"
