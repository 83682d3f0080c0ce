[package]
name = "crame"
version = "0.1.0"
edition = "2021"
publish = false

[dependencies]
anyhow = "*"
clap = { version = "*", features = ["derive"] }
colored = "*"
exitcode = "*"
git2 = { version = "*", default-features = false }
thiserror = "*"
tracing = "*"
tracing-subscriber = "*"

[dev-dependencies]
tempfile = "*"
