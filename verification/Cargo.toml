[package]
name = "find_editor"
version = "0.1.0"
edition = "2021"
publish = false

[dependencies]
shell-words = "1"
which = "*"
