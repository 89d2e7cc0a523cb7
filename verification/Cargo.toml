[package]
name = "config_naga_gui"
version = "0.1.0"
edition = "2021"
publish = false

[dependencies]
toml = "0.8"
dirs = "6"
rfd = { version = "0.15", default-features = false, features = ["xdg-portal", "tokio"] }
ksni = "0.2"
config-2014-naga = "*"
eframe = { version = "0.29", default-features = false, features = ["default_fonts", "glow", "x11"] }
