[package]
name = "makeclean"
version = "0.1.0"
edition = "2021"
publish = false

[dependencies]
anyhow = "1"
assert_fs = "1"
clap = { version = "3", features = ["derive"] }
console = "0.15"
dialoguer = "0.10"
git2 = { version = "0.14", default-features = false }
human-panic = "1"
ignore = "0.4"
serde = { version = "1", features = ["derive"] }
serde_json = "1"
serde_yaml = "0.8"
tar = "0.4"
time = { version = "0.3", features = ["formatting", "macros"] }
toml = "0.5"
tracing = "0.1"
tracing-subscriber = { version = "0.3", features = ["env-filter"] }
walkdir = "2"
xz = "0.1"
