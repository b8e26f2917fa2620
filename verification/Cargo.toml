[package]
name = "glcookbook"
version = "0.1.0"
edition = "2021"
publish = false

[dependencies]
glium = "0.27"
vek = "0.10"
rand = "0.7"
png = "0.15"
hdrldr = "0.1"
itertools = "0.8"
failure = "0.1"
rental = "0.5"
