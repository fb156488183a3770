[package]
name = "single_executor"
version = "0.2.0"
edition = "2021"
publish = false

[dependencies]
concurrency_traits = { version = "*", features = ["std"] }
futures = "*"
log = "*"
simple_futures = "*"
