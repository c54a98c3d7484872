[package]
name = "gpui-ui-kit"
version = "0.1.0"
edition = "2021"
publish = false

[dependencies]
qrcode = { version = "0.14", default-features = false }
serde = { version = "1", features = ["derive"] }
