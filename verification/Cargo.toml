[package]
name = "ssbp6_lib"
version = "0.1.0"
edition = "2021"
publish = false

[dependencies]
image = "*"
image_dds = "*"
ddsfile = "*"
walkdir = "*"
