[package]
name = "iced_widget"
version = "0.1.0"
edition = "2021"
publish = false

[dependencies]
unicode-segmentation = "=1.13.3"
qrcode = { version = "=0.14.1", default-features = false }
