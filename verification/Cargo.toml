[package]
name = "eink_panel"
version = "0.1.0"
edition = "2021"
publish = false

[dependencies]
image = { version = "*", default-features = false, features = ["png"] }
spidev = "*"
sysfs_gpio = "*"
