[package]
name = "font_overlap_remover"
version = "0.1.0"
edition = "2021"
publish = false

[dependencies]
flo_curves = "*"
serde = { version = "*", features = ["derive"] }
serde_json = "*"
