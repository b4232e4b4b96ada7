[package]
name = "sawfish_client"
version = "0.1.0"
edition = "2021"
publish = false

[dependencies]
dns-lookup = "*"
libc = "0.2"
xcb = "1"
tokio = { version = "1", features = ["net", "rt"] }
tokio-util = { version = "0.7", features = ["compat"] }
futures-util = { version = "0.3", features = ["io"] }
