[package]
name = "ros_z_action"
version = "0.1.0"
edition = "2021"
publish = false

[dependencies]
tokio = { version = "1", features = ["macros", "rt", "rt-multi-thread", "sync"] }
tokio-util = "0.7"
tracing = "0.1"
zenoh = { version = "1", default-features = false }
