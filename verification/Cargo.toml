[package]
name = "astrocards"
version = "0.1.0"
edition = "2021"
publish = false

[dependencies]
rand = "=0.9.5"
cgmath = "=0.18.0"
gl = "=0.14.0"
glfw = "=0.59.0"
egui_gl_glfw = "=0.1.13"
rodio = "=0.20.1"
png = "0.18"
