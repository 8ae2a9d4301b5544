[package]
name = "redash"
version = "0.1.0"
edition = "2021"
publish = false

[dependencies]
box_drawing = "*"
clap = { version = "*", features = ["derive"] }
pancurses = "*"
