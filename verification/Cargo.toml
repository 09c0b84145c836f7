[package]
name = "webview"
version = "0.1.0"
edition = "2021"
publish = false

[dependencies]
http = "1"
cocoa = "0.24"
core-graphics = "0.22"
dispatch = "0.2"
objc = "0.2"
raw-window-handle = "0.3"
