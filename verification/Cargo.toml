[package]
name = "hyperos4_gpui_theme"
version = "0.1.0"
edition = "2021"
publish = false

[dependencies]
serde_json = "1"
