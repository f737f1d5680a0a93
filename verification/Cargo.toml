[package]
name = "jlf"
version = "0.1.0"
edition = "2021"
publish = false

[dependencies]
serde_json = { version = "=1.0.151", features = ["preserve_order"] }
jql-runner = "=9.0.3"
chrono = "=0.4.45"
anyhow = "=1.0.104"
atty = "=0.2.14"
clap = { version = "=4.6.7", features = ["derive"] }
termcolor = "=1.4.1"
