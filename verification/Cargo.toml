[package]
name = "textedit2"
version = "0.1.0"
edition = "2021"
publish = false

[dependencies]
gettext-rs = { version = "0.7", features = ["gettext-system"] }
gtk4 = "0.3"
log = "0.4"
once_cell = "1"
