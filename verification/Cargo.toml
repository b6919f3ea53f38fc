[package]
name = "umbral"
version = "0.1.0"
edition = "2021"
publish = false

[dependencies]
umbral-pre = "=0.3.3"
hex = "0.4"
