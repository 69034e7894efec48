[package]
name = "capsula"
version = "0.1.0"
edition = "2021"
publish = false

[dependencies]
anyhow = "1"
chrono = "0.4"
clap = { version = "4", features = ["derive"] }
git2 = { version = "*", default-features = false }
globwalk = "0.9"
names = { version = "*", default-features = false }
serde = { version = "1", features = ["derive"] }
serde_json = "1"
sha2 = "0.10"
shlex = "1.3"
thiserror = "*"
toml = "*"
ulid = { version = "1", features = ["serde"] }
