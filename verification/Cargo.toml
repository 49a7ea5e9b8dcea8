[package]
name = "un_algebra"
version = "0.1.0"
edition = "2021"
publish = false

[dependencies]
num = "0.4"
float-cmp = "0.4"
