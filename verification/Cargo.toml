[package]
name = "md2html"
version = "0.1.0"
edition = "2021"
publish = false

[dependencies]
pulldown-cmark = { version = "=0.13.5", default-features = false, features = ["html"] }
serde = { version = "1", features = ["derive"] }
serde_json = "1"
rfd = { version = "0.14", default-features = false, features = ["xdg-portal", "tokio"] }
