[package]
name = "erased_brand"
version = "0.1.0"
edition = "2021"
publish = false

[dependencies]
ghost-cell = "*"
