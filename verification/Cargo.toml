[package]
name = "soil_sensor"
version = "0.1.0"
edition = "2021"
publish = false

[dependencies]
axum = "*"
clap = { version = "*", features = ["derive"] }
hyper = "*"
i2cdev = "*"
lazy_static = "*"
prometheus = "*"
tokio = { version = "*", features = ["full"] }
