[package]
name = "health_scale"
version = "0.1.0"
edition = "2021"
publish = false

[dependencies]
btleplug = "*"
const-decoder = "*"
flexi_logger = "*"
futures = "*"
log = "*"
tokio = { version = "*", features = ["macros", "rt-multi-thread"] }
