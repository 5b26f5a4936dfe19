[package]
name = "mitos_settings"
version = "0.1.0"
edition = "2021"
publish = false
