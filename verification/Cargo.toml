[package]
name = "harmonizer"
version = "0.1.0"
edition = "2021"
publish = false

[dependencies]
awedio = "=0.8.0"
embedded-graphics = "=0.8.2"
nix = { version = "=0.31.3", features = ["signal"] }
pitch-detection = "=0.3.0"
rppal = { version = "=0.22.1", features = ["embedded-hal"] }
ssd1306 = "=0.10.0"
vl53l1x = "=1.2.0"
