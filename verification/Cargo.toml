[package]
name = "tab_editor"
version = "0.1.0"
edition = "2021"
publish = false

[dependencies]
iced = { version = "=0.14.0", default-features = false, features = ["tiny-skia", "x11", "markdown", "highlighter", "tokio", "advanced"] }
rfd = { version = "=0.17.2", default-features = false, features = ["xdg-portal"] }
tokio = { version = "=1.54.1", features = ["fs"] }
