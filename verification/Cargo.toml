[package]
name = "rustyterm"
version = "0.1.0"
edition = "2021"
publish = false

[dependencies]
dirs = "*"
gdk4 = "*"
glib = "*"
gtk4 = "*"
serde = { version = "*", features = ["derive"] }
toml = "*"
vte4 = "*"
