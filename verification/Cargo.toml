[package]
name = "git_summary"
version = "0.1.0"
edition = "2021"
publish = false

[dependencies]
url = "2"
git2 = { version = "*", default-features = false }
rayon = "1"
walkdir = "2"
clap = "4"
log = "0.4"
pretty_env_logger = "0.5"
prettytable-rs = "*"
anyhow = "1"
