[package]
name = "macopy"
version = "0.1.0"
edition = "2021"
publish = false

[dependencies]
base64 = "0.22"
serde = { version = "1", features = ["derive"] }
serde_json = "1"
log = "0.4"
image = { version = "0.25", default-features = false, features = ["png"] }
cocoa = "0.26"
objc = "0.2"
