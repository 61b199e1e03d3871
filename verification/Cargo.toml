[package]
name = "git_remote"
version = "0.1.0"
edition = "2021"
publish = false

[dependencies]
git2 = "0.20"
serde = { version = "1", features = ["derive"] }

[dev-dependencies]
tempfile = "3"
