[package]
name = "kta"
version = "0.1.0"
edition = "2021"
publish = false

[dependencies]
anyhow = "1"
crossterm = "*"
image = { version = "0.25", default-features = false, features = ["bmp", "gif", "ico", "jpeg", "png", "pnm", "qoi", "tga", "tiff", "webp"] }
lofty = "*"
ratatui = "*"
ratatui-image = { version = "*", default-features = false, features = ["crossterm"] }
rustfft = "*"
tokio = { version = "1", features = ["full"] }
walkdir = "2"
