[package]
name = "modal_editor"
version = "0.1.0"
edition = "2021"
publish = false

[dependencies]
bitflags = "2"
clap = { version = "4", features = ["cargo"] }
macroquad = "0.4"
thiserror = "1"
