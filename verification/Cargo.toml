[package]
name = "quick_pose"
version = "0.1.0"
edition = "2021"
publish = false

[dependencies]
rand = "0.8"
relm4 = { version = "0.4", features = ["macros"] }
