[package]
name = "image_prim"
version = "0.1.0"
edition = "2021"
publish = false

[dependencies]
webrender_api = "*"
euclid = "*"
