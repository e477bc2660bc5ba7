[package]
name = "garage_door"
version = "0.1.0"
edition = "2021"
publish = false

[dependencies]
anyhow = "1"
futures = "0.3"
gethostname = "*"
rumqttc = { version = "*", default-features = false }
serde_json = "1"
sysfs_gpio = { version = "0.6", features = ["async-tokio"] }
tokio = { version = "1", features = ["macros", "rt-multi-thread", "time", "sync", "signal"] }
