[package]
name = "annotation_editor"
version = "0.1.0"
edition = "2021"
publish = false

[dependencies]
arboard = "3"
screenshots = "0.8"
