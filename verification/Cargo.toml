[package]
name = "demo"
version = "0.1.0"
edition = "2021"
publish = false

[dependencies]
num_cpus = "1"
jni = "0.21"
log = "0.4"
tokio = { version = "1", default-features = false, features = ["rt-multi-thread"] }
reqwest = { version = "0.12", default-features = false }
futures = "0.3"
