[package]
name = "nannou_physim"
version = "0.1.0"
edition = "2021"
publish = false

[dependencies]
glam = "0.17"
nannou = "*"
nannou_egui = "*"
