[package]
name = "focus_hide"
version = "0.1.0"
edition = "2021"
publish = false

[dependencies]
breadx = "3"
