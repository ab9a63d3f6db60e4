[package]
name = "deepcool_digital_linux"
version = "0.1.0"
edition = "2021"
publish = false

[dependencies]
colored = "=3.1.1"
hidapi = { version = "=2.6.7", default-features = false, features = ["linux-native-basic-udev"] }
rusb = "=0.9.4"
