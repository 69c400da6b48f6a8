[package]
name = "gg"
version = "0.1.0"
edition = "2021"
publish = false

[dependencies]
clap = { version = "=4.6.7", features = ["derive"] }
git2 = { version = "=0.21.0", features = ["https", "ssh"] }
git-url-parse = "=0.6.0"
owo-colors = "=4.4.0"

[dev-dependencies]
tempfile = "=3.27.0"
