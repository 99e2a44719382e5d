[package]
name = "gllcms"
version = "0.1.0"
edition = "2021"
publish = false

[dependencies]
lcms2 = "*"
gl = "*"
