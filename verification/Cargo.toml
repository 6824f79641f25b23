[package]
name = "webview_bridges"
version = "0.1.0"
edition = "2021"
publish = false

[dependencies]
block2 = "0.3"
icrate = "0.0.4"
objc2 = "0.4"
