[package]
name = "font_extractor"
version = "0.1.0"
edition = "2021"
publish = false

[dependencies]
clap = { version = "4", features = ["derive"] }
thiserror = "2"
windows = { version = "0.58", features = ["Win32_Foundation", "Win32_Graphics_Gdi"] }
