[package]
name = "gtk_layout_inspector"
version = "0.1.0"
edition = "2021"
publish = false

[dependencies]
base64 = "0.22"
glob = "0.3"
gtk4 = "*"
image = { version = "0.25", default-features = false, features = ["jpeg", "png"] }
libc = "0.2"
serde = { version = "1", features = ["derive"] }
serde_json = "1"
tokio = { version = "1", features = ["rt", "sync", "time"] }
