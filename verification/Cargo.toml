[package]
name = "billiard"
version = "0.1.0"
edition = "2021"
publish = false

[dependencies]
optimization = "=0.2.0"
wolfram-library-link = { version = "=0.6.1", default-features = false, features = ["panic-failure-backtraces", "automate-function-loading-boilerplate"] }
