[package]
name = "tlrepo"
version = "0.1.0"
edition = "2021"
publish = false

[dependencies]
git2 = { version = "=0.21.0", default-features = false }
thread_local = "=1.1.10"

[dev-dependencies]
tempfile = "=3.27.0"
crossbeam-utils = "*"
