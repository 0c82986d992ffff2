[package]
name = "navigate_sensorhub"
version = "0.1.0"
edition = "2021"
publish = false

[dependencies]
i2cdev = "=0.6.2"
tokio = { version = "=1.53.2", features = ["sync", "rt-multi-thread", "time", "macros", "io-util"] }
serde = { version = "=1.0.229", features = ["derive"] }
serde_json = "=1.0.151"
toml = "=1.1.7"
tokio-serial = "=5.5.0"
