[package]
name = "egui_themer"
version = "0.1.0"
edition = "2021"
publish = false

[dependencies]
serde_json = { version = "=1.0.154", features = ["preserve_order", "arbitrary_precision"] }
handlebars = "=6.4.4"
rust-format = "=0.3.4"
egui_demo_lib = { version = "=0.28.1", default-features = false }
egui-notify = "=0.15.0"
futures = "=0.3.34"
