[package]
name = "gpapi"
version = "0.1.0"
edition = "2021"
publish = false

[dependencies]
urlencoding = "=2.1.3"
xmltree = "=0.12.0"
is_executable = "=1.0.6"
reqwest = { version = "=0.13.5", default-features = false, features = ["form", "rustls"] }
tokio = { version = "=1.53.2", features = ["rt", "macros"] }
log = "=0.4.34"
anyhow = "=1.0.104"
clap = { version = "=4.6.7", features = ["derive"] }
whoami = "=2.1.3"
