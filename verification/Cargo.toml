[package]
name = "rgb_interfaces"
version = "0.1.0"
edition = "2021"
publish = false

[dependencies]
rgb-std = "=0.11.0-beta.9"
strict_encoding = "2.7"
strict_types = "2.7"
amplify = "4"
