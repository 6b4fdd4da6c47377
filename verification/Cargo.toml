[package]
name = "flyline"
version = "0.1.0"
edition = "2021"
publish = false

[dependencies]
unicode-width = "*"
libc = "*"
ratatui = { version = "*", default-features = false }
clap = "*"
easing-function = "*"
pulldown-cmark = { version = "*", default-features = false }
strum = { version = "*", features = ["derive"] }
serde = { version = "*", features = ["derive"] }
