[package]
name = "font_face"
version = "0.1.0"
edition = "2021"
publish = false

[dependencies]
winapi = { version = "0.3", features = ["dwrite", "dcommon", "minwindef", "winerror", "unknwnbase"] }
