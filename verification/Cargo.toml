[package]
name = "some_macro"
version = "0.1.0"
edition = "2021"
publish = false

[dependencies]
cairo-lang-macro = "*"
