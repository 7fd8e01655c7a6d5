[package]
name = "camlink"
version = "0.1.0"
edition = "2021"
publish = false

[dependencies]
anyhow = "1"
btleplug = "0.11"
chrono = "0.4"
futures-util = "0.3"
uuid = "1"
