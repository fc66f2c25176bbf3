[package]
name = "rgb"
version = "0.1.0"
edition = "2021"
publish = false

[dependencies]
clap = "=2.34.0"
hidapi = { version = "=2.6.7", default-features = false, features = ["linux-native-basic-udev"] }
