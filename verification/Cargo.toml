[package]
name = "textarea_viewport"
version = "0.1.0"
edition = "2021"
publish = false

[dependencies]
ratatui = { version = "0.29", default-features = false }
tui = { version = "0.19", default-features = false }
