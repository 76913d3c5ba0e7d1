[package]
name = "res_errare"
version = "0.1.0"
edition = "2021"
publish = false

[dependencies]
cgmath = "=0.18.0"
gl = "=0.14.0"
glfw = "=0.51.0"
memoffset = "=0.9.1"
stb_image = "=0.2.5"
tobj = "=2.0.4"
